//! The reference data of the playable races.

pub mod common;
pub mod dwarf;
