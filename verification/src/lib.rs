//! Domain model and page logic of a tabletop role-playing-game character creator.
//!
//! The crate holds the reference data of the playable races, the text that the
//! information panels show for them, and the state machines that track which page
//! is open and which race and subrace are selected. Every function carries a
//! contract that is checked by Verus.

pub mod app;
pub mod common;
pub mod frontend;
pub mod lists;
pub mod text;
