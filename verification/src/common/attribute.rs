//! The six core statistics of a character and the bonuses applied to them.

use vstd::prelude::*;

verus! {

/// One of the six core statistics.
#[derive(Debug, Clone, Copy, PartialEq, Eq, Structural)]
pub enum Attribute {
    Strength,
    Dexterity,
    Constitution,
    Intelligence,
    Wisdom,
    Charisma,
}

/// An ability score increase: a bonus to one statistic, or to one of the
/// player's choosing.
#[derive(Debug, Clone, Copy, PartialEq, Eq, Structural)]
pub enum ASI {
    Any(u8),
    Strength(u8),
    Dexterity(u8),
    Constitution(u8),
    Intelligence(u8),
    Wisdom(u8),
    Charisma(u8),
}

/// The six ability scores of a character.
#[derive(Debug, Clone, Copy, PartialEq, Eq, Structural)]
pub struct AbilityScores {
    pub strength: u8,
    pub dexterity: u8,
    pub constitution: u8,
    pub intelligence: u8,
    pub wisdom: u8,
    pub charisma: u8,
}

impl Default for AbilityScores {
    /// Every score starts at 8.
    fn default() -> (s: AbilityScores)
        ensures
            s == (AbilityScores {
                strength: 8,
                dexterity: 8,
                constitution: 8,
                intelligence: 8,
                wisdom: 8,
                charisma: 8,
            }),
    {
        AbilityScores {
            strength: 8,
            dexterity: 8,
            constitution: 8,
            intelligence: 8,
            wisdom: 8,
            charisma: 8,
        }
    }
}

} // verus!
