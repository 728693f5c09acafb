//! A small task manager: an ordered list of short text tasks that can be
//! added to, completed, removed from and listed, with every operation
//! specified over a mathematical model and verified with Verus.
//!
//! The list lives in memory. Reading and writing the file that keeps it
//! between runs, and printing, are the caller's part: the library decides
//! what the list is, what is shown and whether the list is to be saved.

pub mod argument;
pub mod command;
pub mod laws;
pub mod listing;
pub mod persistence;
pub mod store;
pub mod task;

pub use argument::{parse_index, InvalidArgument};
pub use command::{Command, Outcome};
pub use persistence::{LoadError, Persisted};
pub use store::TaskList;
pub use task::{Task, TaskView};
