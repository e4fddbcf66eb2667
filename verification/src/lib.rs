//! A line editor for a raw terminal: the history of submitted lines, the
//! arithmetic that places a caret on a wrapped input line, and the editing
//! operations built on both.

pub mod history;
pub mod laws;
pub mod model;
pub mod position;
pub mod surface;
pub mod terminal;
pub mod text;
