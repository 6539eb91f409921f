//! A minimal line-oriented text editor core: a line buffer with insert,
//! split, join and delete operations, a viewport that maps buffer lines to
//! screen rows, a keypress-to-command resolver, and an edit engine that
//! applies commands while keeping all coordinates within bounds.

pub mod buffer;
pub mod command;
pub mod engine;
pub mod viewport;
