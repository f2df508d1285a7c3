//! The core of a terminal note editor: a line buffer with a cursor, an index
//! of note files with a selection, a live substring search over the index,
//! and the focus state machine that routes key presses to them. The caller
//! reads the keyboard, draws the screen and touches the file system.

pub mod app;
pub mod buffer;
pub mod index;
pub mod laws;
pub mod lines;
pub mod paths;
pub mod search;
pub mod text;
