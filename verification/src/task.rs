//! A single task and its mathematical model.

use vstd::prelude::*;

verus! {

/// The model of a [`Task`]: its text and whether it has been done.
pub struct TaskView {
    pub description: Seq<char>,
    pub completed: bool,
}

impl TaskView {
    /// The task that adding `description` creates: not yet done.
    pub open spec fn pending(description: Seq<char>) -> TaskView {
        TaskView { description, completed: false }
    }

    /// The same task, done.
    pub open spec fn complete(self) -> TaskView {
        TaskView { description: self.description, completed: true }
    }
}

/// A task: a short description and a completion flag. A task has no
/// identity of its own; it is addressed by its position in a task list.
#[derive(Debug, PartialEq, Eq)]
pub struct Task {
    pub description: String,
    pub completed: bool,
}

impl View for Task {
    type V = TaskView;

    open spec fn view(&self) -> TaskView {
        TaskView { description: self.description@, completed: self.completed }
    }
}

/// The models of a sequence of tasks, in the same order.
pub open spec fn views(tasks: Seq<Task>) -> Seq<TaskView> {
    tasks.map_values(|task: Task| task@)
}

impl Task {
    /// Creates a task that is not yet done. Any text is accepted, the empty
    /// string included.
    pub fn new(description: String) -> (task: Task)
        ensures
            task@ == TaskView::pending(description@),
    {
        Task { description, completed: false }
    }
}

impl Clone for Task {
    fn clone(&self) -> (copy: Task)
        ensures
            copy == *self,
    {
        Task { description: self.description.clone(), completed: self.completed }
    }
}

} // verus!
