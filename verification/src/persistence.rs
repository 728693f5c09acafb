//! Loading: what a task list is restored from, and how.
//!
//! Reading the file and decoding its text are left to the caller. The caller
//! reports what it found there as a [`Persisted`], and this module decides
//! what the list is, or why there is none.

use vstd::prelude::*;
use crate::store::TaskList;
use crate::task::{views, Task, TaskView};

verus! {

/// What was found where the task list is kept.
#[derive(Debug, PartialEq, Eq)]
pub enum Persisted {
    /// Nothing has been saved yet.
    Missing,
    /// Something is there but could not be read; the text says why.
    Unreadable(String),
    /// It was read but does not hold a task list; the text says why.
    Malformed(String),
    /// The tasks that were saved, in order.
    Tasks(Vec<Task>),
}

/// Why a task list could not be loaded. Each kind carries the reason as
/// text.
#[derive(Debug, PartialEq, Eq)]
pub enum LoadError {
    /// The saved list could not be read.
    Io(String),
    /// What was read is not a task list.
    Parse(String),
}

/// The model of a [`Persisted`].
pub enum PersistedView {
    Missing,
    Unreadable(Seq<char>),
    Malformed(Seq<char>),
    Tasks(Seq<TaskView>),
}

/// The model of a [`LoadError`].
pub enum LoadErrorView {
    Io(Seq<char>),
    Parse(Seq<char>),
}

impl View for Persisted {
    type V = PersistedView;

    open spec fn view(&self) -> PersistedView {
        match *self {
            Persisted::Missing => PersistedView::Missing,
            Persisted::Unreadable(reason) => PersistedView::Unreadable(reason@),
            Persisted::Malformed(reason) => PersistedView::Malformed(reason@),
            Persisted::Tasks(tasks) => PersistedView::Tasks(views(tasks@)),
        }
    }
}

impl View for LoadError {
    type V = LoadErrorView;

    open spec fn view(&self) -> LoadErrorView {
        match *self {
            LoadError::Io(reason) => LoadErrorView::Io(reason@),
            LoadError::Parse(reason) => LoadErrorView::Parse(reason@),
        }
    }
}

/// What loading yields: the empty list where nothing has been saved, the
/// saved tasks where they were read, and otherwise the failure, which is
/// never taken for an empty list.
pub open spec fn loaded(found: PersistedView) -> Result<Seq<TaskView>, LoadErrorView> {
    match found {
        PersistedView::Missing => Ok(Seq::empty()),
        PersistedView::Unreadable(reason) => Err(LoadErrorView::Io(reason)),
        PersistedView::Malformed(reason) => Err(LoadErrorView::Parse(reason)),
        PersistedView::Tasks(tasks) => Ok(tasks),
    }
}

/// The line that reports a failed load.
pub open spec fn report_text(error: LoadErrorView) -> Seq<char> {
    "Error loading tasks: "@ + match error {
        LoadErrorView::Io(reason) => reason,
        LoadErrorView::Parse(reason) => reason,
    }
}

impl LoadError {
    /// The reason for the failure, as text.
    pub fn message(&self) -> (reason: &str)
        ensures
            self@ == LoadErrorView::Io(reason@) || self@ == LoadErrorView::Parse(reason@),
    {
        match self {
            LoadError::Io(reason) => reason.as_str(),
            LoadError::Parse(reason) => reason.as_str(),
        }
    }

    /// The line that reports this failure.
    pub fn report(&self) -> (line: String)
        ensures
            line@ == report_text(self@),
    {
        let mut line = String::from_str("Error loading tasks: ");
        line.append(self.message());
        line
    }
}

impl TaskList {
    /// Restores the list from what was found in storage. Where nothing has
    /// been saved yet this is the empty list and no error; unreadable or
    /// malformed storage is an error.
    pub fn load(found: Persisted) -> (result: Result<TaskList, LoadError>)
        ensures
            match result {
                Ok(list) => loaded(found@) == Ok::<Seq<TaskView>, LoadErrorView>(list@),
                Err(error) => loaded(found@) == Err::<Seq<TaskView>, LoadErrorView>(error@),
            },
    {
        match found {
            Persisted::Missing => Ok(TaskList::new()),
            Persisted::Unreadable(reason) => Err(LoadError::Io(reason)),
            Persisted::Malformed(reason) => Err(LoadError::Parse(reason)),
            Persisted::Tasks(tasks) => Ok(TaskList { tasks }),
        }
    }

    /// The list to work on after an attempt to load it: the loaded list, or
    /// the empty list together with the line that reports why loading
    /// failed.
    pub fn recover(attempt: Result<TaskList, LoadError>) -> (start: (TaskList, Option<String>))
        ensures
            match attempt {
                Ok(list) => {
                    &&& start.0@ == list@
                    &&& start.1 is None
                },
                Err(error) => {
                    &&& start.0@ == Seq::<TaskView>::empty()
                    &&& start.1 matches Some(line)
                    &&& line@ == report_text(error@)
                },
            },
    {
        match attempt {
            Ok(list) => (list, None),
            Err(error) => {
                let line = error.report();
                (TaskList::new(), Some(line))
            },
        }
    }
}

} // verus!
