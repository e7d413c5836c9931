//! Which race and which subrace the user has picked.

use vstd::prelude::*;
use crate::frontend::race::{RaceName, Subrace, SubraceView};

verus! {

/// Whether a pick of a race and of a subrace can stand: a subrace can only
/// be picked together with the race that it belongs to.
pub open spec fn valid_selection(race: Option<RaceName>, subrace: Option<SubraceView>) -> bool {
    subrace matches Some(s) ==> race matches Some(r) && r.race_spec().subraces.contains(s)
}

/// The subrace that stays picked beside `race`: `subrace` where the two can
/// stand together, and none otherwise.
pub open spec fn kept_subrace(race: Option<RaceName>, subrace: Option<SubraceView>) -> Option<
    SubraceView,
> {
    if valid_selection(race, subrace) {
        subrace
    } else {
        None
    }
}

/// The race and the subrace that the user has picked. A subrace is only ever
/// held together with the race that it belongs to.
#[derive(Debug)]
pub struct RaceProps {
    selected_race: Option<RaceName>,
    selected_subrace: Option<Subrace>,
}

impl RaceProps {
    #[verifier::type_invariant]
    spec fn holds_valid_selection(self) -> bool {
        valid_selection(self.selected_race, self.selected_subrace.deep_view())
    }

    /// The race that is picked.
    pub closed spec fn race(self) -> Option<RaceName> {
        self.selected_race
    }

    /// The value of the subrace that is picked.
    pub closed spec fn subrace(self) -> Option<SubraceView> {
        self.selected_subrace.deep_view()
    }

    /// Returns the state in which nothing is picked.
    pub fn new() -> (r: RaceProps)
        ensures
            r.race() is None,
            r.subrace() is None,
    {
        RaceProps { selected_race: None, selected_subrace: None }
    }

    /// Returns the state in which `race` is picked, and `subrace` too if it
    /// belongs to that race; a subrace that does not is dropped.
    pub fn with(race: Option<RaceName>, subrace: Option<Subrace>) -> (r: RaceProps)
        ensures
            r.race() == race,
            r.subrace() == kept_subrace(race, subrace.deep_view()),
    {
        let kept = match (&race, subrace) {
            (Some(name), Some(picked)) => {
                if name.race().has_subrace(&picked) {
                    Some(picked)
                } else {
                    None
                }
            },
            _ => None,
        };
        RaceProps { selected_race: race, selected_subrace: kept }
    }

    /// Returns the race that is picked.
    pub fn selected_race(&self) -> (r: Option<RaceName>)
        ensures
            r == self.race(),
    {
        self.selected_race
    }

    /// Returns the subrace that is picked.
    pub fn selected_subrace(&self) -> (r: Option<&Subrace>)
        ensures
            r.deep_view() == self.subrace(),
            valid_selection(self.race(), self.subrace()),
    {
        proof {
            use_type_invariant(self);
        }
        self.selected_subrace.as_ref()
    }

    /// Picks `race`. The subrace stays picked only if it belongs to `race`.
    pub fn select_race(&mut self, race: RaceName)
        ensures
            final(self).race() == Some(race),
            final(self).subrace() == kept_subrace(Some(race), old(self).subrace()),
    {
        let keep = match &self.selected_subrace {
            Some(picked) => race.race().has_subrace(picked),
            None => true,
        };
        if !keep {
            self.selected_subrace = None;
        }
        self.selected_race = Some(race);
    }

    /// Picks `subrace` if a race is picked and `subrace` belongs to it, and
    /// returns `true`. Otherwise the pick is rejected: nothing changes, and
    /// `false` is returned.
    pub fn select_subrace(&mut self, subrace: Subrace) -> (accepted: bool)
        ensures
            accepted == valid_selection(old(self).race(), Some(subrace.deep_view())),
            final(self).race() == old(self).race(),
            final(self).subrace() == if accepted {
                Some(subrace.deep_view())
            } else {
                old(self).subrace()
            },
    {
        let accepted = match &self.selected_race {
            Some(name) => name.race().has_subrace(&subrace),
            None => false,
        };
        if accepted {
            self.selected_subrace = Some(subrace);
        }
        accepted
    }

    /// Drops both picks.
    pub fn clear(&mut self)
        ensures
            final(self).race() is None,
            final(self).subrace() is None,
    {
        self.selected_subrace = None;
        self.selected_race = None;
    }
}

impl Clone for RaceProps {
    fn clone(&self) -> (r: RaceProps)
        ensures
            r.race() == self.race(),
            r.subrace() == self.subrace(),
    {
        proof {
            use_type_invariant(self);
        }
        let selected_subrace = match &self.selected_subrace {
            Some(picked) => Some(picked.clone()),
            None => None,
        };
        RaceProps { selected_race: self.selected_race, selected_subrace }
    }
}

} // verus!
