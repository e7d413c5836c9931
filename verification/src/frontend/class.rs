//! The classes a character can have.

use vstd::prelude::*;
use crate::frontend::utils::{Choices, Summary};

verus! {

/// A class a character can have.
#[derive(Debug)]
pub struct Class {
    /// The name of the class.
    pub name: String,
    /// The name of the class in the plural.
    pub name_plural: String,
    /// The description of the class.
    pub summary: Summary,
    /// The hit points that the class gives.
    pub hit_points: HitPoints,
    /// The proficiencies that the class gives.
    pub proficiencies: Vec<Choices<String>>,
}

/// The hit points that a class gives.
#[derive(Debug, Clone, Copy, PartialEq, Eq, Structural)]
pub struct HitPoints {
    /// The die rolled for the hit points of each level.
    pub hit_dice: Die,
}

/// A die and the side that it shows.
#[derive(Debug, Clone, Copy, PartialEq, Eq, Structural)]
pub struct Die {
    pub num_sides: usize,
    pub value: usize,
}

} // verus!
