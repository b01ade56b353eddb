//! The command history and the text that is being edited.

pub mod history;
