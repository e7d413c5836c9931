//! Value types shared by the pages, with the sentences that describe them.

use vstd::prelude::*;
use vstd::std_specs::cmp::PartialEqSpecImpl;
use crate::lists::{lemma_deep_view_eq, same_texts};
use crate::text::{decimal, join, joined, push_decimal};

pub use crate::common::Range;
pub use crate::common::language::{Language, LanguageLevel};
pub use crate::common::size::SizeCategory;
pub use crate::common::speed::Speed;
pub use crate::common::summary::Summary;

verus! {

/// An increase of one ability score by the amount held.
#[derive(Debug, Clone, Copy, PartialEq, Eq, Structural)]
pub enum Attribute {
    Strength(u8),
    Dexterity(u8),
    Constitution(u8),
    Intelligence(u8),
    Wisdom(u8),
    Charisma(u8),
}

impl Attribute {
    /// The name of the ability score that increases.
    pub open spec fn name_spec(self) -> Seq<char> {
        match self {
            Attribute::Strength(_) => "Strength"@,
            Attribute::Dexterity(_) => "Dexterity"@,
            Attribute::Constitution(_) => "Constitution"@,
            Attribute::Intelligence(_) => "Intelligence"@,
            Attribute::Wisdom(_) => "Wisdom"@,
            Attribute::Charisma(_) => "Charisma"@,
        }
    }

    /// The amount by which the score increases.
    pub open spec fn amount_spec(self) -> u8 {
        match self {
            Attribute::Strength(n) => n,
            Attribute::Dexterity(n) => n,
            Attribute::Constitution(n) => n,
            Attribute::Intelligence(n) => n,
            Attribute::Wisdom(n) => n,
            Attribute::Charisma(n) => n,
        }
    }

    /// The sentence on the increase, without what follows its full stop:
    /// "Wisdom score increases by 1."
    pub open spec fn sentence_spec(self) -> Seq<char> {
        self.name_spec() + " score increases by "@ + decimal(self.amount_spec() as nat) + "."@
    }

    /// The sentence on a line of its own: it ends with a line feed.
    pub open spec fn text_spec(self) -> Seq<char> {
        self.sentence_spec() + "\n"@
    }

    /// The sentence as it is displayed among others: it ends with a space.
    pub open spec fn display_spec(self) -> Seq<char> {
        self.sentence_spec() + " "@
    }

    /// Builds the sentence on the increase and appends `ending` to it.
    fn sentence(&self, ending: &str) -> (s: String)
        ensures
            s@ == self.sentence_spec() + ending@,
    {
        let (name, amount) = match self {
            Attribute::Strength(n) => ("Strength", *n),
            Attribute::Dexterity(n) => ("Dexterity", *n),
            Attribute::Constitution(n) => ("Constitution", *n),
            Attribute::Intelligence(n) => ("Intelligence", *n),
            Attribute::Wisdom(n) => ("Wisdom", *n),
            Attribute::Charisma(n) => ("Charisma", *n),
        };
        let mut s = String::from_str(name);
        s.append(" score increases by ");
        push_decimal(&mut s, amount as u64);
        s.append(".");
        s.append(ending);
        s
    }

    /// Returns the sentence on the increase on a line of its own.
    pub fn text(&self) -> (s: String)
        ensures
            s@ == self.text_spec(),
    {
        self.sentence("\n")
    }

    /// Returns the sentence on the increase as it is displayed among others.
    pub fn to_string(&self) -> (s: String)
        ensures
            s@ == self.display_spec(),
    {
        self.sentence(" ")
    }
}

/// What a character takes from a list of options.
#[derive(Debug)]
pub enum Choices<T> {
    /// Exactly one of the listed options is picked.
    One(Vec<T>),
    /// Every listed option is granted.
    All(Vec<T>),
}

/// The mathematical value of a [`Choices`].
pub enum ChoicesView<V> {
    One(Seq<V>),
    All(Seq<V>),
}

impl<T: DeepView> DeepView for Choices<T> {
    type V = ChoicesView<T::V>;

    open spec fn deep_view(&self) -> ChoicesView<T::V> {
        match self {
            Choices::One(items) => ChoicesView::One(items.deep_view()),
            Choices::All(items) => ChoicesView::All(items.deep_view()),
        }
    }
}

impl<T> Choices<T> {
    /// Whether `picks`, the indices of the options that the player picks,
    /// can stand: a pick of one is exactly one of the options, and where
    /// everything is granted nothing is left to pick.
    pub open spec fn accepts_spec(&self, picks: Seq<usize>) -> bool {
        match self {
            Choices::One(options) => picks.len() == 1 && picks[0] < options@.len(),
            Choices::All(_) => picks.len() == 0,
        }
    }

    /// Returns `true` if `picks`, the indices of the options that the player
    /// picks, can stand.
    pub fn accepts(&self, picks: &Vec<usize>) -> (r: bool)
        ensures
            r == self.accepts_spec(picks@),
    {
        match self {
            Choices::One(options) => picks.len() == 1 && picks[0] < options.len(),
            Choices::All(_) => picks.len() == 0,
        }
    }
}

impl ChoicesView<Seq<char>> {
    /// The sentence that offers the options after `header`: for a pick of
    /// one, "`header` one of the following of your choice: a, b."; for a grant
    /// of all, "`header` all of the following: a, b.".
    pub open spec fn text(self, header: Seq<char>) -> Seq<char> {
        match self {
            ChoicesView::One(items) => header + " one of the following of your choice: "@
                + joined(items, ", "@) + "."@,
            ChoicesView::All(items) => header + " all of the following: "@ + joined(items, ", "@)
                + "."@,
        }
    }
}

impl Choices<String> {
    /// Returns the sentence that offers the options after `header`.
    pub fn text(&self, header: &str) -> (s: String)
        ensures
            s@ == self.deep_view().text(header@),
    {
        let mut s = String::from_str(header);
        match self {
            Choices::One(items) => {
                s.append(" one of the following of your choice: ");
                s.append(join(items, ", ").as_str());
            },
            Choices::All(items) => {
                s.append(" all of the following: ");
                s.append(join(items, ", ").as_str());
            },
        }
        s.append(".");
        s
    }
}

impl Clone for Choices<String> {
    fn clone(&self) -> (r: Choices<String>)
        ensures
            r.deep_view() == self.deep_view(),
    {
        match self {
            Choices::One(items) => {
                let copy = items.clone();
                proof {
                    lemma_deep_view_eq(*items, copy);
                }
                Choices::One(copy)
            },
            Choices::All(items) => {
                let copy = items.clone();
                proof {
                    lemma_deep_view_eq(*items, copy);
                }
                Choices::All(copy)
            },
        }
    }
}

impl PartialEq for Choices<String> {
    fn eq(&self, other: &Choices<String>) -> (r: bool) {
        match (self, other) {
            (Choices::One(a), Choices::One(b)) => same_texts(a, b),
            (Choices::All(a), Choices::All(b)) => same_texts(a, b),
            _ => false,
        }
    }
}

impl Eq for Choices<String> {

}

impl PartialEqSpecImpl for Choices<String> {
    open spec fn obeys_eq_spec() -> bool {
        true
    }

    open spec fn eq_spec(&self, other: &Choices<String>) -> bool {
        self.deep_view() == other.deep_view()
    }
}

/// How much of a turn the use of a trait takes.
#[derive(Debug, Clone, Copy, PartialEq, Eq, Structural)]
pub enum Action {
    Action,
    BonusAction,
    Reaction,
}

} // verus!
