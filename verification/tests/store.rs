use task_manager::{Task, TaskList};

fn list_of(descriptions: &[&str]) -> TaskList {
    let mut list = TaskList::new();
    for description in descriptions {
        list.add_task(description.to_string());
    }
    list
}

fn task(description: &str, completed: bool) -> Task {
    Task {
        description: description.to_string(),
        completed,
    }
}

#[test]
fn new_list_has_no_tasks() {
    let list = TaskList::new();
    assert_eq!(list.tasks.len(), 0);
    assert_eq!(list.list_tasks(), Vec::<String>::new());
}

#[test]
fn new_task_is_pending() {
    let made = Task::new("water plants".to_string());
    assert_eq!(made, task("water plants", false));
}

#[test]
fn add_task_appends_pending_task() {
    let mut list = TaskList::new();
    list.add_task("buy milk".to_string());
    assert_eq!(list.tasks, vec![task("buy milk", false)]);
}

#[test]
fn add_task_accepts_empty_description() {
    let mut list = TaskList::new();
    list.add_task(String::new());
    assert_eq!(list.tasks, vec![task("", false)]);
    assert_eq!(list.list_tasks(), vec![String::from("0:  [Pending]")]);
}

#[test]
fn add_task_keeps_insertion_order() {
    let list = list_of(&["one", "two", "three", "two"]);
    assert_eq!(
        list.tasks,
        vec![
            task("one", false),
            task("two", false),
            task("three", false),
            task("two", false),
        ]
    );
}

#[test]
fn add_task_leaves_earlier_tasks_alone() {
    let mut list = list_of(&["one", "two"]);
    list.mark_completed(0);
    list.add_task("three".to_string());
    assert_eq!(
        list.tasks,
        vec![task("one", true), task("two", false), task("three", false)]
    );
}

#[test]
fn added_tasks_are_listed_in_order_as_pending() {
    let list = list_of(&["d1", "d2", "d3"]);
    assert_eq!(
        list.list_tasks(),
        vec![
            String::from("0: d1 [Pending]"),
            String::from("1: d2 [Pending]"),
            String::from("2: d3 [Pending]"),
        ]
    );
}

#[test]
fn mark_completed_changes_only_that_task() {
    let mut list = list_of(&["one", "two", "three"]);
    list.mark_completed(1);
    assert_eq!(
        list.tasks,
        vec![task("one", false), task("two", true), task("three", false)]
    );
}

#[test]
fn mark_completed_first_and_last() {
    let mut list = list_of(&["one", "two", "three"]);
    list.mark_completed(0);
    list.mark_completed(2);
    assert_eq!(
        list.tasks,
        vec![task("one", true), task("two", false), task("three", true)]
    );
}

#[test]
fn mark_completed_twice_stays_completed() {
    let mut list = list_of(&["one"]);
    list.mark_completed(0);
    list.mark_completed(0);
    assert_eq!(list.tasks, vec![task("one", true)]);
}

#[test]
fn mark_completed_out_of_bounds_changes_nothing() {
    let mut list = list_of(&["one", "two"]);
    list.mark_completed(0);
    let before = list.clone();
    list.mark_completed(2);
    assert_eq!(list, before);
    list.mark_completed(usize::MAX);
    assert_eq!(list, before);
}

#[test]
fn mark_completed_on_empty_list_changes_nothing() {
    let mut list = TaskList::new();
    list.mark_completed(0);
    assert_eq!(list, TaskList::new());
}

#[test]
fn remove_task_shifts_later_tasks_down() {
    let mut list = list_of(&["one", "two", "three", "four"]);
    list.mark_completed(2);
    list.remove_task(1);
    assert_eq!(
        list.tasks,
        vec![task("one", false), task("three", true), task("four", false)]
    );
}

#[test]
fn remove_task_first_and_last() {
    let mut list = list_of(&["one", "two", "three"]);
    list.remove_task(0);
    assert_eq!(list.tasks, vec![task("two", false), task("three", false)]);
    list.remove_task(1);
    assert_eq!(list.tasks, vec![task("two", false)]);
    list.remove_task(0);
    assert_eq!(list.tasks, Vec::<Task>::new());
}

#[test]
fn remove_task_out_of_bounds_changes_nothing() {
    let mut list = list_of(&["one", "two"]);
    let before = list.clone();
    list.remove_task(2);
    assert_eq!(list, before);
    list.remove_task(usize::MAX);
    assert_eq!(list, before);
}

#[test]
fn remove_task_on_empty_list_changes_nothing() {
    let mut list = TaskList::new();
    list.remove_task(0);
    assert_eq!(list, TaskList::new());
}

#[test]
fn remove_task_takes_one_of_two_equal_tasks() {
    let mut list = list_of(&["same", "same"]);
    list.mark_completed(1);
    list.remove_task(0);
    assert_eq!(list.tasks, vec![task("same", true)]);
}

#[test]
fn clone_is_an_equal_list() {
    let mut list = list_of(&["one", "two"]);
    list.mark_completed(1);
    let copy = list.clone();
    assert_eq!(copy, list);
    assert_eq!(copy.tasks[1].clone(), task("two", true));
}

#[test]
fn clone_is_independent_of_the_original() {
    let mut list = list_of(&["one"]);
    let copy = list.clone();
    list.mark_completed(0);
    list.add_task("two".to_string());
    assert_eq!(copy.tasks, vec![task("one", false)]);
}

#[test]
fn scenario_add_twice_complete_first_then_list() {
    let mut list = TaskList::new();
    list.add_task("buy milk".to_string());
    list.add_task("call mom".to_string());
    list.mark_completed(0);
    assert_eq!(
        list.list_tasks(),
        vec![
            String::from("0: buy milk [Completed]"),
            String::from("1: call mom [Pending]"),
        ]
    );
}

#[test]
fn scenario_remove_first_of_two_then_list() {
    let mut list = list_of(&["first", "second"]);
    list.mark_completed(1);
    list.remove_task(0);
    assert_eq!(list.list_tasks(), vec![String::from("0: second [Completed]")]);

    let mut pending = list_of(&["first", "second"]);
    pending.remove_task(0);
    assert_eq!(pending.list_tasks(), vec![String::from("0: second [Pending]")]);
}
