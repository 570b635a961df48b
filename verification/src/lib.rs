//! A list of tasks that are added, shown, marked as done or undone, edited
//! and removed. A task is named by its position in the list, counted from
//! one. Each operation is given as the user wrote it and answered by the list
//! after it, by how it ended and by the lines to print; reading and writing
//! the place where the list is kept is left to the caller.

pub mod command;
pub mod decimal;
pub mod edit;
pub mod message;
pub mod store;
pub mod task;
mod text;

pub use command::{run, Command, Outcome, Status};
pub use store::{Stored, TodoError, TodoList};
pub use task::Todo;
