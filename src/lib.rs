//! State and update rules of a TodoMVC-style task list: a collection of tasks,
//! the draft of the next task, an optional rename session and a view filter.

pub mod laws;
pub mod model;
mod outside;

pub use model::{init, update, Filter, Model, Msg, SelectedTodo, Todo};
