//! How tall and heavy the members of a race are.

use vstd::prelude::*;
use vstd::std_specs::cmp::PartialEqSpecImpl;
use crate::common::Range;
use crate::text::{decimal, push_decimal};

verus! {

/// The size class of a creature.
#[derive(Debug, Clone, Copy, PartialEq, Eq, Structural)]
pub enum SizeCategory {
    Tiny,
    Small,
    Medium,
    Large,
    Gargantuan,
}

impl SizeCategory {
    /// The name of the size class.
    pub open spec fn text_spec(self) -> Seq<char> {
        match self {
            SizeCategory::Tiny => "Tiny"@,
            SizeCategory::Small => "Small"@,
            SizeCategory::Medium => "Medium"@,
            SizeCategory::Large => "Large"@,
            SizeCategory::Gargantuan => "Gargantuan"@,
        }
    }

    /// The name of the size class as a string slice.
    pub fn name(&self) -> (s: &'static str)
        ensures
            s@ == self.text_spec(),
    {
        match self {
            SizeCategory::Tiny => "Tiny",
            SizeCategory::Small => "Small",
            SizeCategory::Medium => "Medium",
            SizeCategory::Large => "Large",
            SizeCategory::Gargantuan => "Gargantuan",
        }
    }

    /// Returns the name of the size class.
    pub fn text(&self) -> (s: String)
        ensures
            s@ == self.text_spec(),
    {
        String::from_str(self.name())
    }
}

/// A height in whole feet and inches.
#[derive(Debug, Clone, Copy)]
pub struct Height {
    pub feet: u32,
    pub inches: u32,
}

impl PartialEq for Height {
    fn eq(&self, other: &Height) -> (r: bool) {
        self.feet == other.feet && self.inches == other.inches
    }
}

impl Eq for Height {

}

impl PartialEqSpecImpl for Height {
    open spec fn obeys_eq_spec() -> bool {
        true
    }

    open spec fn eq_spec(&self, other: &Height) -> bool {
        self.feet == other.feet && self.inches == other.inches
    }
}

impl Height {
    /// The height in inches, at twelve inches to the foot.
    pub open spec fn total_inches(self) -> int {
        self.feet * 12 + self.inches
    }

    /// The height in words: the feet, and the inches unless there are none.
    pub open spec fn text_spec(self) -> Seq<char> {
        if self.inches == 0 {
            decimal(self.feet as nat) + " feet"@
        } else {
            decimal(self.feet as nat) + " feet"@ + " and "@ + decimal(self.inches as nat)
                + " inches"@
        }
    }

    /// Returns `true` if the height is a whole number of feet.
    pub fn feet_only(&self) -> (r: bool)
        ensures
            r == (self.inches == 0),
    {
        self.inches == 0
    }

    /// Appends the height in words to `out`.
    fn push_text(&self, out: &mut String)
        ensures
            final(out)@ == old(out)@ + self.text_spec(),
    {
        push_decimal(out, self.feet as u64);
        out.append(" feet");
        if !self.feet_only() {
            out.append(" and ");
            push_decimal(out, self.inches as u64);
            out.append(" inches");
        }
        assert(final(out)@ =~= old(out)@ + self.text_spec());
    }
}

/// A weight in whole pounds.
#[derive(Debug, Clone, Copy)]
pub struct Weight(pub u32);

impl PartialEq for Weight {
    fn eq(&self, other: &Weight) -> (r: bool) {
        self.0 == other.0
    }
}

impl Eq for Weight {

}

impl PartialEqSpecImpl for Weight {
    open spec fn obeys_eq_spec() -> bool {
        true
    }

    open spec fn eq_spec(&self, other: &Weight) -> bool {
        self.0 == other.0
    }
}

impl Range<Height> {
    /// A height range is in order if it does not end below its start.
    pub open spec fn ordered(&self) -> bool {
        self.start.total_inches() <= self.end.total_inches()
    }

    /// The range in words: one height if it is singular, else
    /// the first height, " to " and the last.
    pub open spec fn text_spec(&self) -> Seq<char> {
        if self.start == self.end {
            self.start.text_spec()
        } else {
            self.start.text_spec() + " to "@ + self.end.text_spec()
        }
    }

    /// Returns the height range in words.
    pub fn text(&self) -> (s: String)
        ensures
            s@ == self.text_spec(),
    {
        let mut s = String::new();
        self.start.push_text(&mut s);
        if !self.is_singular() {
            s.append(" to ");
            self.end.push_text(&mut s);
        }
        assert(s@ =~= self.text_spec());
        s
    }
}

impl Range<Weight> {
    /// A weight range is in order if it does not end below its start.
    pub open spec fn ordered(&self) -> bool {
        self.start.0 <= self.end.0
    }

    /// The range in words: "N pounds" if it is singular, else "N to M pounds".
    pub open spec fn text_spec(&self) -> Seq<char> {
        if self.start == self.end {
            decimal(self.start.0 as nat) + " pounds"@
        } else {
            decimal(self.start.0 as nat) + " to "@ + decimal(self.end.0 as nat) + " pounds"@
        }
    }

    /// Returns the weight range in words.
    pub fn text(&self) -> (s: String)
        ensures
            s@ == self.text_spec(),
    {
        let mut s = String::new();
        push_decimal(&mut s, self.start.0 as u64);
        if !self.is_singular() {
            s.append(" to ");
            push_decimal(&mut s, self.end.0 as u64);
        }
        s.append(" pounds");
        assert(s@ =~= self.text_spec());
        s
    }
}

/// The size of the members of a race.
#[derive(Debug)]
pub struct Size {
    /// The size class.
    pub category: SizeCategory,
    /// The usual heights, where known.
    pub height: Option<Range<Height>>,
    /// The usual weights, where known.
    pub weight: Option<Range<Weight>>,
}

impl Size {
    /// A size is well formed if each range it holds is in order.
    pub open spec fn wf(&self) -> bool {
        &&& self.height matches Some(h) ==> h.ordered()
        &&& self.weight matches Some(w) ==> w.ordered()
    }

    /// The sentences on the size of a race named `name_plural`: height and
    /// weight as far as they are known, then the size class.
    pub open spec fn text_spec(&self, name_plural: Seq<char>) -> Seq<char> {
        let class = "Your size is "@ + self.category.text_spec() + "."@;
        match (self.height, self.weight) {
            (Some(h), Some(w)) => name_plural + " stand at around "@ + h.text_spec()
                + " tall and weigh about "@ + w.text_spec() + ". "@ + class,
            (Some(h), None) => name_plural + " stand at around "@ + h.text_spec() + " tall. "@
                + class,
            (None, Some(w)) => name_plural + " weight about "@ + w.text_spec() + ". "@ + class,
            (None, None) => class,
        }
    }

    /// Returns the sentences on the size of a race named `name_plural`.
    pub fn text(&self, name_plural: &str) -> (s: String)
        ensures
            s@ == self.text_spec(name_plural@),
    {
        let mut s = String::new();
        match (&self.height, &self.weight) {
            (Some(h), Some(w)) => {
                s.append(name_plural);
                s.append(" stand at around ");
                s.append(h.text().as_str());
                s.append(" tall and weigh about ");
                s.append(w.text().as_str());
                s.append(". ");
            },
            (Some(h), None) => {
                s.append(name_plural);
                s.append(" stand at around ");
                s.append(h.text().as_str());
                s.append(" tall. ");
            },
            (None, Some(w)) => {
                s.append(name_plural);
                s.append(" weight about ");
                s.append(w.text().as_str());
                s.append(". ");
            },
            (None, None) => {},
        }
        s.append("Your size is ");
        s.append(self.category.name());
        s.append(".");
        assert(s@ =~= self.text_spec(name_plural@));
        s
    }
}

} // verus!
