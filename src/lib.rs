//! The core of a terminal text editor: a cursor held on the screen, a view
//! that draws the text, and a terminal session that is entered once and
//! restored once. The library decides which instructions reach the terminal
//! and in what order, and encodes them as escape sequences; the program
//! around it performs them.

pub mod ansi;
pub mod buffer;
pub mod cursor;
pub mod editor;
pub mod event;
pub mod terminal;
pub mod view;
