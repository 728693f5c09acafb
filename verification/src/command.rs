//! One invocation: a single command applied to the list.
//!
//! A command either changes the list, and the list is then to be saved, or
//! it only shows something, and nothing is saved.

use vstd::prelude::*;
use crate::listing::listing;
use crate::store::{with_completed, without, TaskList};
use crate::task::TaskView;

verus! {

/// What the user asked for.
#[derive(Debug, PartialEq, Eq)]
pub enum Command {
    /// Add a task with this description.
    Add(String),
    /// Mark the task at this index as done.
    Complete(usize),
    /// Remove the task at this index.
    Remove(usize),
    /// Show all tasks.
    List,
    /// No subcommand was given, or one that is not known.
    Unrecognized,
}

/// The model of a [`Command`].
pub enum CommandView {
    Add(Seq<char>),
    Complete(nat),
    Remove(nat),
    List,
    Unrecognized,
}

impl View for Command {
    type V = CommandView;

    open spec fn view(&self) -> CommandView {
        match *self {
            Command::Add(description) => CommandView::Add(description@),
            Command::Complete(index) => CommandView::Complete(index as nat),
            Command::Remove(index) => CommandView::Remove(index as nat),
            Command::List => CommandView::List,
            Command::Unrecognized => CommandView::Unrecognized,
        }
    }
}

impl CommandView {
    /// Whether the command is one that changes the list. Such a command is
    /// followed by a save even where it found nothing to change.
    pub open spec fn mutates(self) -> bool {
        self is Add || self is Complete || self is Remove
    }
}

/// The list after `command` has been applied to `tasks`.
pub open spec fn applied(tasks: Seq<TaskView>, command: CommandView) -> Seq<TaskView> {
    match command {
        CommandView::Add(description) => tasks.push(TaskView::pending(description)),
        CommandView::Complete(index) => with_completed(tasks, index),
        CommandView::Remove(index) => without(tasks, index),
        CommandView::List => tasks,
        CommandView::Unrecognized => tasks,
    }
}

/// The lines that `command` shows when it is applied to `tasks`.
pub open spec fn shown(tasks: Seq<TaskView>, command: CommandView) -> Seq<Seq<char>> {
    match command {
        CommandView::List => listing(tasks),
        CommandView::Unrecognized => seq!["No valid subcommand provided."@],
        _ => Seq::empty(),
    }
}

/// What applying a command leaves for the caller to do.
#[derive(Debug, PartialEq, Eq)]
pub struct Outcome {
    /// The lines to print, in order.
    pub output: Vec<String>,
    /// Whether the list is to be saved.
    pub persist: bool,
}

impl TaskList {
    /// Applies one command. Adding, completing and removing change the list
    /// as the operations of those names do, show nothing, and ask for a
    /// save, also where the index was past the end. Listing shows one line
    /// for each task; an unrecognized command shows a single notice. Neither
    /// changes the list nor asks for a save.
    pub fn execute(&mut self, command: Command) -> (outcome: Outcome)
        ensures
            final(self)@ == applied(old(self)@, command@),
            outcome.output.deep_view() == shown(old(self)@, command@),
            outcome.output@.len() == shown(old(self)@, command@).len(),
            forall|i: int|
                0 <= i < outcome.output@.len() ==> outcome.output@[i]@ == shown(
                    old(self)@,
                    command@,
                )[i],
            outcome.persist == command@.mutates(),
    {
        match command {
            Command::Add(description) => {
                self.add_task(description);
                Outcome { output: Vec::new(), persist: true }
            },
            Command::Complete(index) => {
                self.mark_completed(index);
                Outcome { output: Vec::new(), persist: true }
            },
            Command::Remove(index) => {
                self.remove_task(index);
                Outcome { output: Vec::new(), persist: true }
            },
            Command::List => {
                let output = self.list_tasks();
                Outcome { output, persist: false }
            },
            Command::Unrecognized => {
                let mut output: Vec<String> = Vec::new();
                output.push(String::from_str("No valid subcommand provided."));
                Outcome { output, persist: false }
            },
        }
    }
}

} // verus!
