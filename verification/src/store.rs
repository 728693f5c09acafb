//! The task list: an ordered sequence of tasks, addressed by position.

use vstd::prelude::*;
use crate::task::{views, Task, TaskView};

verus! {

/// `tasks` after the task at `index` has been marked as done; `tasks`
/// itself where there is no such task.
pub open spec fn with_completed(tasks: Seq<TaskView>, index: nat) -> Seq<TaskView> {
    if index < tasks.len() {
        tasks.update(index as int, tasks[index as int].complete())
    } else {
        tasks
    }
}

/// `tasks` after the task at `index` has been taken out; `tasks` itself
/// where there is no such task.
pub open spec fn without(tasks: Seq<TaskView>, index: nat) -> Seq<TaskView> {
    if index < tasks.len() {
        tasks.remove(index as int)
    } else {
        tasks
    }
}

/// An ordered list of tasks. Tasks keep the order in which they were added,
/// and a task is addressed by its position: index `i` is valid exactly when
/// `i < len`. There is no bound on the size and no check for duplicates.
#[derive(Debug, PartialEq, Eq)]
pub struct TaskList {
    pub tasks: Vec<Task>,
}

impl View for TaskList {
    type V = Seq<TaskView>;

    open spec fn view(&self) -> Seq<TaskView> {
        views(self.tasks@)
    }
}

impl TaskList {
    /// Creates a list with no tasks.
    pub fn new() -> (list: TaskList)
        ensures
            list@ == Seq::<TaskView>::empty(),
    {
        TaskList { tasks: Vec::new() }
    }

    /// Appends a task with the given description, not yet done, at the end
    /// of the list. Every earlier task keeps its position.
    pub fn add_task(&mut self, description: String)
        ensures
            final(self)@ == old(self)@.push(TaskView::pending(description@)),
    {
        self.tasks.push(Task::new(description));
    }

    /// Marks the task at `index` as done. Its description and every other
    /// task stay as they are. An index past the end changes nothing.
    pub fn mark_completed(&mut self, index: usize)
        ensures
            final(self)@ == with_completed(old(self)@, index as nat),
            final(self)@.len() == old(self)@.len(),
            forall|i: int|
                0 <= i < old(self)@.len() && i != index ==> final(self)@[i] == old(self)@[i],
            index < old(self)@.len() ==> final(self)@[index as int].completed,
            index < old(self)@.len() ==> final(self)@[index as int].description
                == old(self)@[index as int].description,
    {
        if index < self.tasks.len() {
            self.tasks[index].completed = true;
        }
    }

    /// Removes the task at `index`: the tasks before it stay where they are
    /// and every later task moves one position down. An index past the end
    /// changes nothing.
    pub fn remove_task(&mut self, index: usize)
        ensures
            final(self)@ == without(old(self)@, index as nat),
            index >= old(self)@.len() ==> final(self)@ == old(self)@,
            index < old(self)@.len() ==> final(self)@.len() == old(self)@.len() - 1,
            forall|i: int|
                0 <= i < index && i < old(self)@.len() ==> final(self)@[i] == old(self)@[i],
            forall|i: int|
                index <= i < old(self)@.len() - 1 ==> final(self)@[i] == old(self)@[i + 1],
    {
        if index < self.tasks.len() {
            self.tasks.remove(index);
        }
    }
}

impl Clone for TaskList {
    fn clone(&self) -> (copy: TaskList)
        ensures
            copy@ == self@,
    {
        let mut tasks: Vec<Task> = Vec::new();
        let mut i: usize = 0;
        while i < self.tasks.len()
            invariant
                i <= self.tasks.len(),
                tasks.len() == i,
                forall|j: int| 0 <= j < i ==> tasks[j] == self.tasks[j],
            decreases self.tasks.len() - i,
        {
            tasks.push(self.tasks[i].clone());
            i += 1;
        }
        TaskList { tasks }
    }
}

} // verus!
