//! Core of a minimal modal text editor: a document of text lines, a
//! cursor, and a two-mode state machine driven by key events, plus the
//! pure projection of that state onto a fixed-size terminal viewport.
//! Terminal plumbing (raw mode, event polling, drawing) is left to the
//! caller.

pub mod editor;
pub mod render;
