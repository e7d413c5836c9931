//! Lists and their values: lemmas on the value of a vector, and comparisons
//! of two vectors item by item.

use vstd::prelude::*;
use vstd::std_specs::cmp::PartialEqSpec;

verus! {

/// Pushing an item onto a vector pushes its value onto the vector's value.
pub proof fn lemma_deep_view_push<T: DeepView>(before: Vec<T>, after: Vec<T>, item: T)
    requires
        after@ == before@.push(item),
    ensures
        after.deep_view() == before.deep_view().push(item.deep_view()),
{
    assert(after.deep_view() =~= before.deep_view().push(item.deep_view()));
}

/// Two vectors of one length whose items have the same values at every index
/// have the same value.
pub proof fn lemma_deep_view_eq<T: DeepView>(a: Vec<T>, b: Vec<T>)
    requires
        a@.len() == b@.len(),
        forall|j: int| 0 <= j < a@.len() ==> a@[j].deep_view() == b@[j].deep_view(),
    ensures
        a.deep_view() == b.deep_view(),
{
    assert(a.deep_view() =~= b.deep_view());
}

/// Vectors with the same value have the same length, and items with the same
/// values at every index.
pub proof fn lemma_deep_view_items<T: DeepView>(a: Vec<T>, b: Vec<T>)
    requires
        a.deep_view() == b.deep_view(),
    ensures
        a@.len() == b@.len(),
        forall|j: int| 0 <= j < a@.len() ==> a@[j].deep_view() == b@[j].deep_view(),
{
    assert(a@.len() == a.deep_view().len());
    assert(b@.len() == b.deep_view().len());
    assert forall|j: int| 0 <= j < a@.len() implies a@[j].deep_view() == b@[j].deep_view() by {
        assert(a.deep_view()[j] == a@[j].deep_view());
        assert(b.deep_view()[j] == b@[j].deep_view());
    }
}

/// Returns `true` if the two lists hold the same texts in the same order.
pub fn same_texts(a: &Vec<String>, b: &Vec<String>) -> (r: bool)
    ensures
        r == (a.deep_view() == b.deep_view()),
{
    if a.len() != b.len() {
        proof {
            if a.deep_view() == b.deep_view() {
                lemma_deep_view_items(*a, *b);
            }
        }
        return false;
    }
    let mut i: usize = 0;
    while i < a.len()
        invariant
            i <= a.len(),
            a.len() == b.len(),
            forall|j: int| 0 <= j < i ==> a@[j].deep_view() == b@[j].deep_view(),
        decreases a.len() - i,
    {
        if a[i] != b[i] {
            proof {
                if a.deep_view() == b.deep_view() {
                    lemma_deep_view_items(*a, *b);
                }
            }
            return false;
        }
        i += 1;
    }
    proof {
        lemma_deep_view_eq(*a, *b);
    }
    true
}

/// Returns `true` if the two lists hold items of the same values in the same
/// order, for items whose `==` compares values.
pub fn same_items<T: PartialEq + DeepView>(a: &Vec<T>, b: &Vec<T>) -> (r: bool)
    requires
        T::obeys_eq_spec(),
        forall|x: T, y: T| #[trigger] x.eq_spec(&y) == (x.deep_view() == y.deep_view()),
    ensures
        r == (a.deep_view() == b.deep_view()),
{
    if a.len() != b.len() {
        proof {
            if a.deep_view() == b.deep_view() {
                lemma_deep_view_items(*a, *b);
            }
        }
        return false;
    }
    let mut i: usize = 0;
    while i < a.len()
        invariant
            i <= a.len(),
            a.len() == b.len(),
            T::obeys_eq_spec(),
            forall|x: T, y: T| #[trigger] x.eq_spec(&y) == (x.deep_view() == y.deep_view()),
            forall|j: int| 0 <= j < i ==> a@[j].deep_view() == b@[j].deep_view(),
        decreases a.len() - i,
    {
        if a[i] != b[i] {
            proof {
                assert(!a@[i as int].eq_spec(&b@[i as int]));
                if a.deep_view() == b.deep_view() {
                    lemma_deep_view_items(*a, *b);
                }
            }
            return false;
        }
        assert(a@[i as int].eq_spec(&b@[i as int]));
        i += 1;
    }
    proof {
        lemma_deep_view_eq(*a, *b);
    }
    true
}

} // verus!
