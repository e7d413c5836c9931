//! Abilities and features granted to a character, and what they do.

use vstd::prelude::*;
use crate::common::Choice;
use crate::common::attribute::Attribute;
use crate::common::proficiency::Proficiency;

verus! {

/// A granted ability or feature.
#[derive(Debug)]
pub struct Trait {
    /// The name of the trait.
    pub name: String,
    /// What the trait does, in words.
    pub summary: String,
    /// The effects of the trait.
    pub effects: Vec<TraitEffect>,
    /// The tags under which the trait is filed.
    pub tags: Vec<String>,
}

/// One effect of a trait.
#[derive(Debug)]
pub enum TraitEffect {
    /// The trait changes how the character sees.
    Vision(Vision),
    /// The trait changes the saving throws on one attribute.
    SavingThrows { advantage: Advantage, attribute: Attribute },
    /// The trait changes how much damage of one type the character takes.
    Resistances(Resistance),
    /// The trait grants proficiencies.
    Proficiencies(Choice<Proficiency>),
}

/// A kind of sight and how far it reaches, in feet.
#[derive(Debug, Clone, Copy, PartialEq, Eq, Structural)]
pub enum Vision {
    Normal(u16),
    Darkvision(u16),
    Truesight(u16),
    DevilsSight(u16),
}

/// Whether a roll is made with advantage or with disadvantage.
#[derive(Debug, Clone, Copy, PartialEq, Eq, Structural)]
pub enum Advantage {
    Advantage,
    Disadvantage,
}

/// The types of damage.
#[derive(Debug, Clone, Copy, PartialEq, Eq, Structural)]
pub enum DamageType {
    Piercing,
    Poison,
}

/// Whether damage of a type is taken less or more.
#[derive(Debug, Clone, Copy, PartialEq, Eq, Structural)]
pub enum Resistance {
    Resistance(DamageType),
    Vulnerability(DamageType),
}

} // verus!
