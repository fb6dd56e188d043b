//! State and intent handling for a task-list application.
//!
//! The root [`Model`] owns the ordered task list and the active filter and
//! applies intents to it.  The three view components (header, list entry,
//! footer) keep their small local state here and return from `update` what
//! they ask of their owner.  Drawing the page and the storage slot belong to
//! the embedding application.
mod cmp;
pub mod footer;
pub mod header;
pub mod lemmas;
pub mod model;
pub mod todoitem;

pub use footer::FooterComponent;
pub use header::HeaderComponent;
pub use model::{Effect, Filter, Model, Msg, Update, STORAGE_KEY};
pub use todoitem::{TodoItem, TodoItemComponent};
