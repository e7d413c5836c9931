//! How fast a character moves.

use vstd::prelude::*;
use crate::text::{decimal, push_decimal};

verus! {

/// A movement speed in feet, by the way of moving.
#[derive(Debug, Clone, Copy, PartialEq, Eq, Structural)]
pub enum Speed {
    Walking(u16),
    Flying(u16),
    Swimming(u16),
    Climbing(u16),
}

impl Speed {
    /// The word that names the way of moving.
    pub open spec fn kind_spec(self) -> Seq<char> {
        match self {
            Speed::Walking(_) => "Walking"@,
            Speed::Flying(_) => "Flying"@,
            Speed::Swimming(_) => "Swimming"@,
            Speed::Climbing(_) => "Climbing"@,
        }
    }

    /// The distance covered, in feet.
    pub open spec fn distance_spec(self) -> u16 {
        match self {
            Speed::Walking(d) => d,
            Speed::Flying(d) => d,
            Speed::Swimming(d) => d,
            Speed::Climbing(d) => d,
        }
    }

    /// The sentence that describes the speed, such as
    /// "Walking speed of 25 feet."
    pub open spec fn text_spec(self) -> Seq<char> {
        self.kind_spec() + " speed of "@ + decimal(self.distance_spec() as nat) + " feet."@
    }

    /// Returns the sentence that describes the speed.
    pub fn text(&self) -> (s: String)
        ensures
            s@ == self.text_spec(),
    {
        let (kind, distance) = match self {
            Speed::Walking(d) => ("Walking", *d),
            Speed::Flying(d) => ("Flying", *d),
            Speed::Swimming(d) => ("Swimming", *d),
            Speed::Climbing(d) => ("Climbing", *d),
        };
        let mut s = String::from_str(kind);
        s.append(" speed of ");
        push_decimal(&mut s, distance as u64);
        s.append(" feet.");
        s
    }

    /// Returns the speed as it is displayed, which is the sentence of
    /// [`Speed::text`].
    pub fn to_string(&self) -> (s: String)
        ensures
            s@ == self.text_spec(),
    {
        self.text()
    }
}

} // verus!
