//! Languages a character knows, and how well.

use vstd::prelude::*;
use vstd::std_specs::cmp::PartialEqSpecImpl;
use crate::lists::lemma_deep_view_push;
use crate::text::{join, joined};

verus! {

/// One way of mastering a language.
#[derive(Debug, Clone, Copy, PartialEq, Eq, Structural)]
pub enum LanguageLevel {
    Speak,
    Read,
    Write,
    Understand,
}

impl LanguageLevel {
    /// The word shown for this level.
    pub open spec fn text_spec(self) -> Seq<char> {
        match self {
            LanguageLevel::Speak => "Speak"@,
            LanguageLevel::Read => "Read"@,
            LanguageLevel::Write => "Write"@,
            LanguageLevel::Understand => "Understand"@,
        }
    }

    /// Returns the word shown for this level.
    pub fn text(&self) -> (s: String)
        ensures
            s@ == self.text_spec(),
    {
        match self {
            LanguageLevel::Speak => String::from_str("Speak"),
            LanguageLevel::Read => String::from_str("Read"),
            LanguageLevel::Write => String::from_str("Write"),
            LanguageLevel::Understand => String::from_str("Understand"),
        }
    }
}

/// The words shown for a list of levels, in the same order.
pub open spec fn level_texts(levels: Seq<LanguageLevel>) -> Seq<Seq<char>> {
    Seq::new(levels.len(), |i: int| levels[i].text_spec())
}

/// A language together with the ways in which a character masters it.
#[derive(Debug)]
pub struct Language {
    pub name: String,
    pub levels: Vec<LanguageLevel>,
}

/// The mathematical value of a [`Language`].
pub struct LanguageView {
    pub name: Seq<char>,
    pub levels: Seq<LanguageLevel>,
}

impl DeepView for Language {
    type V = LanguageView;

    open spec fn deep_view(&self) -> LanguageView {
        LanguageView { name: self.name@, levels: self.levels@ }
    }
}

impl LanguageView {
    /// The language as it is displayed: its name, then its levels in round
    /// brackets with ", " between them, such as "Common (Speak, Read, Write)".
    pub open spec fn display(self) -> Seq<char> {
        self.name + " ("@ + joined(level_texts(self.levels), ", "@) + ")"@
    }
}

impl Language {
    /// Returns the language as it is displayed: its name, then its levels in
    /// round brackets.
    pub fn to_string(&self) -> (s: String)
        ensures
            s@ == self.deep_view().display(),
    {
        let mut words: Vec<String> = Vec::new();
        let mut i: usize = 0;
        while i < self.levels.len()
            invariant
                i <= self.levels.len(),
                words.deep_view() == level_texts(self.levels@.take(i as int)),
            decreases self.levels.len() - i,
        {
            let ghost before = words;
            let word = self.levels[i].text();
            words.push(word);
            proof {
                lemma_deep_view_push(before, words, word);
                assert(level_texts(self.levels@.take(i + 1)) =~= level_texts(
                    self.levels@.take(i as int),
                ).push(self.levels@[i as int].text_spec()));
            }
            i += 1;
        }
        assert(self.levels@.take(i as int) =~= self.levels@);
        let mut s = self.name.clone();
        s.append(" (");
        s.append(join(&words, ", ").as_str());
        s.append(")");
        s
    }
}

impl Clone for Language {
    fn clone(&self) -> (r: Language)
        ensures
            r.deep_view() == self.deep_view(),
    {
        Language { name: self.name.clone(), levels: self.levels.clone() }
    }
}

impl PartialEq for Language {
    fn eq(&self, other: &Language) -> (r: bool) {
        if self.name != other.name || self.levels.len() != other.levels.len() {
            return false;
        }
        let mut i: usize = 0;
        while i < self.levels.len()
            invariant
                i <= self.levels.len(),
                self.levels.len() == other.levels.len(),
                forall|j: int| 0 <= j < i ==> self.levels@[j] == other.levels@[j],
            decreases self.levels.len() - i,
        {
            if self.levels[i] != other.levels[i] {
                return false;
            }
            i += 1;
        }
        assert(self.levels@ =~= other.levels@);
        true
    }
}

impl Eq for Language {

}

impl PartialEqSpecImpl for Language {
    open spec fn obeys_eq_spec() -> bool {
        true
    }

    open spec fn eq_spec(&self, other: &Language) -> bool {
        self.deep_view() == other.deep_view()
    }
}


} // verus!
