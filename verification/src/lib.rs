//! A line-editing engine for terminal applications.
//!
//! The crate holds the editing logic only: the line buffer, the key decoder,
//! the history cursor, the capability ports and the state machines that tie
//! them together. It performs no input or output itself; a driver feeds it
//! bytes and carries out the actions it asks for.

pub mod capability;
pub mod decoder;
pub mod editor;
pub mod error;
pub mod history;
pub mod keys;
pub mod line_buffer;
pub mod screen;
pub mod session;
pub mod terminal;
pub mod text;
