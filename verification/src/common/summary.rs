//! Descriptions: a main text followed by titled subsections.

use vstd::prelude::*;
use vstd::std_specs::cmp::PartialEqSpecImpl;
use crate::lists::{lemma_deep_view_eq, lemma_deep_view_items, lemma_deep_view_push};

verus! {

/// A description made of a main text and of titled subsections, which are
/// shown in the order in which they are held.
#[derive(Debug)]
pub struct Summary {
    pub main: String,
    /// Each subsection as its title and its text.
    pub subsections: Vec<(String, String)>,
}

/// The mathematical value of a [`Summary`].
pub struct SummaryView {
    pub main: Seq<char>,
    pub subsections: Seq<(Seq<char>, Seq<char>)>,
}

impl DeepView for Summary {
    type V = SummaryView;

    open spec fn deep_view(&self) -> SummaryView {
        SummaryView { main: self.main@, subsections: self.subsections.deep_view() }
    }
}

impl Summary {
    /// Returns a summary of the main text alone, without subsections.
    pub fn plain(main: &str) -> (r: Summary)
        ensures
            r.deep_view() == (SummaryView { main: main@, subsections: Seq::empty() }),
    {
        let r = Summary { main: String::from_str(main), subsections: Vec::new() };
        assert(r.subsections.deep_view() =~= Seq::empty());
        r
    }
}

impl Clone for Summary {
    fn clone(&self) -> (r: Summary)
        ensures
            r.deep_view() == self.deep_view(),
    {
        let mut subsections: Vec<(String, String)> = Vec::new();
        let mut i: usize = 0;
        while i < self.subsections.len()
            invariant
                i <= self.subsections.len(),
                subsections.deep_view() == self.subsections.deep_view().take(i as int),
            decreases self.subsections.len() - i,
        {
            let ghost before = subsections;
            let entry = (self.subsections[i].0.clone(), self.subsections[i].1.clone());
            subsections.push(entry);
            proof {
                lemma_deep_view_push(before, subsections, entry);
                assert(self.subsections.deep_view().take(i + 1)
                    =~= self.subsections.deep_view().take(i as int).push(entry.deep_view()));
            }
            i += 1;
        }
        assert(self.subsections.deep_view().take(i as int) =~= self.subsections.deep_view());
        Summary { main: self.main.clone(), subsections }
    }
}

impl PartialEq for Summary {
    fn eq(&self, other: &Summary) -> (r: bool) {
        if self.main != other.main {
            return false;
        }
        if self.subsections.len() != other.subsections.len() {
            proof {
                if self.subsections.deep_view() == other.subsections.deep_view() {
                    lemma_deep_view_items(self.subsections, other.subsections);
                }
            }
            return false;
        }
        let mut i: usize = 0;
        while i < self.subsections.len()
            invariant
                i <= self.subsections.len(),
                self.subsections.len() == other.subsections.len(),
                forall|j: int|
                    0 <= j < i ==> self.subsections@[j].deep_view()
                        == other.subsections@[j].deep_view(),
            decreases self.subsections.len() - i,
        {
            if self.subsections[i].0 != other.subsections[i].0 || self.subsections[i].1
                != other.subsections[i].1 {
                proof {
                    if self.subsections.deep_view() == other.subsections.deep_view() {
                        lemma_deep_view_items(self.subsections, other.subsections);
                    }
                }
                return false;
            }
            i += 1;
        }
        proof {
            lemma_deep_view_eq(self.subsections, other.subsections);
        }
        true
    }
}

impl Eq for Summary {

}

impl PartialEqSpecImpl for Summary {
    open spec fn obeys_eq_spec() -> bool {
        true
    }

    open spec fn eq_spec(&self, other: &Summary) -> bool {
        self.deep_view() == other.deep_view()
    }
}

} // verus!
