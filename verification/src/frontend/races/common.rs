//! The traits that several races share.

use vstd::prelude::*;
use crate::frontend::race::{RacialTrait, RacialTraitView};

verus! {

/// The name of the trait of seeing in the dark.
pub const DARKVISION_NAME: &'static str = "Darkvision";

/// What seeing in the dark does.
pub const DARKVISION_SUMMARY: &'static str =
    "You can see in dim light within 60 feet of you as if it were bright light, and in darkness as if it were dim light. You can’t discern color in darkness, only shades of gray.";

/// The value of the trait of seeing in the dark.
pub open spec fn darkvision_view() -> RacialTraitView {
    RacialTraitView { name: DARKVISION_NAME@, summary: DARKVISION_SUMMARY@, action_type: None }
}

/// Returns the trait of seeing in the dark.
pub fn darkvision() -> (r: RacialTrait)
    ensures
        r.deep_view() == darkvision_view(),
{
    RacialTrait::passive(DARKVISION_NAME, DARKVISION_SUMMARY)
}

} // verus!
