//! The reference data model shared by every page: attributes, languages,
//! proficiencies, sizes, speeds, summaries and traits.

use vstd::prelude::*;
use vstd::std_specs::cmp::PartialEqSpec;

pub mod attribute;
pub mod language;
pub mod proficiency;
pub mod size;
pub mod speed;
pub mod summary;
pub mod traits;

verus! {

/// Anything that spans from a first value to a last value.
pub trait RangeTrait<T: Clone> {
    /// The value the span starts at.
    spec fn start_spec(&self) -> T;

    /// The value the span ends at.
    spec fn end_spec(&self) -> T;

    /// Returns a copy of the value the span starts at.
    fn start(&self) -> (r: T)
        ensures
            cloned(self.start_spec(), r),
    ;

    /// Returns a copy of the value the span ends at.
    fn end(&self) -> (r: T)
        ensures
            cloned(self.end_spec(), r),
    ;
}

/// A range of possible values, from `start` up to `end`.
#[derive(Debug)]
pub struct Range<T> {
    pub start: T,
    pub end: T,
}

impl<T: Clone> RangeTrait<T> for Range<T> {
    open spec fn start_spec(&self) -> T {
        self.start
    }

    open spec fn end_spec(&self) -> T {
        self.end
    }

    fn start(&self) -> (r: T) {
        self.start.clone()
    }

    fn end(&self) -> (r: T) {
        self.end.clone()
    }
}

impl<T: PartialEq> Range<T> {
    /// Returns `true` if the range holds a single value, that is if it
    /// starts and ends at the same one.
    pub fn is_singular(&self) -> (r: bool)
        ensures
            T::obeys_eq_spec() ==> r == self.start.eq_spec(&self.end),
    {
        self.start == self.end
    }
}

/// The values below `under` together with those above `over`.
#[derive(Debug)]
pub struct UnderOver<T> {
    pub under: T,
    pub over: T,
}

impl<T: Clone> RangeTrait<T> for UnderOver<T> {
    open spec fn start_spec(&self) -> T {
        self.under
    }

    open spec fn end_spec(&self) -> T {
        self.over
    }

    fn start(&self) -> (r: T) {
        self.under.clone()
    }

    fn end(&self) -> (r: T) {
        self.over.clone()
    }
}

/// What a character may take from a list of options.
#[derive(Debug, Clone, PartialEq, Eq)]
pub enum Choice<T> {
    /// Exactly one of the listed options is picked.
    OneOf(Vec<T>),
    /// Every listed option is granted.
    AllOf(Vec<T>),
    /// The one option is granted.
    Single(T),
}

impl<T> Choice<T> {
    /// Whether `picks`, the indices of the options that the player picks,
    /// can stand: a pick from a list is exactly one of its options, and
    /// where everything is granted nothing is left to pick.
    pub open spec fn accepts_spec(&self, picks: Seq<usize>) -> bool {
        match self {
            Choice::OneOf(options) => picks.len() == 1 && picks[0] < options@.len(),
            Choice::AllOf(_) => picks.len() == 0,
            Choice::Single(_) => picks.len() == 0,
        }
    }

    /// Returns `true` if `picks`, the indices of the options that the player
    /// picks, can stand.
    pub fn accepts(&self, picks: &Vec<usize>) -> (r: bool)
        ensures
            r == self.accepts_spec(picks@),
    {
        match self {
            Choice::OneOf(options) => picks.len() == 1 && picks[0] < options.len(),
            Choice::AllOf(_) => picks.len() == 0,
            Choice::Single(_) => picks.len() == 0,
        }
    }
}

} // verus!
