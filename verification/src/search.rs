//! Finding the first element of a sequence that has some property, given the
//! sequence of answers to "does element `i` have it?".

use vstd::prelude::*;

verus! {

/// Whether `i` is the first index at which `flags` holds `true`.
pub open spec fn is_first_true(flags: Seq<bool>, i: int) -> bool {
    &&& 0 <= i < flags.len()
    &&& flags[i]
    &&& forall|j: int| 0 <= j < i ==> !flags[j]
}

/// The first index at which `flags` holds `true`, if there is one.
pub open spec fn first_true(flags: Seq<bool>) -> Option<int> {
    if exists|i: int| is_first_true(flags, i) {
        Some(choose|i: int| is_first_true(flags, i))
    } else {
        None
    }
}

/// There is at most one first index.
pub proof fn lemma_first_true_is(flags: Seq<bool>, i: int)
    requires
        is_first_true(flags, i),
    ensures
        first_true(flags) == Some(i),
{
    let k = choose|k: int| is_first_true(flags, k);
    assert(is_first_true(flags, k));
    if k < i {
        assert(!flags[k]);
    } else if i < k {
        assert(!flags[i]);
    }
}

/// Where `true` occurs at all, it has a first occurrence, at or before any
/// given one.
pub proof fn lemma_first_true_exists(flags: Seq<bool>, j: int)
    requires
        0 <= j < flags.len(),
        flags[j],
    ensures
        first_true(flags) is Some,
        first_true(flags)->0 <= j,
        is_first_true(flags, first_true(flags)->0),
    decreases j,
{
    if forall|k: int| 0 <= k < j ==> !flags[k] {
        assert(is_first_true(flags, j));
        lemma_first_true_is(flags, j);
    } else {
        let k = choose|k: int| 0 <= k < j && flags[k];
        lemma_first_true_exists(flags, k);
    }
}

/// What the result of the search says about the sequence: the index it
/// names is the first that holds `true`, and where it names none, no index
/// holds `true`.
pub proof fn lemma_first_true_meaning(flags: Seq<bool>)
    ensures
        match first_true(flags) {
            Some(i) => is_first_true(flags, i),
            None => forall|j: int| 0 <= j < flags.len() ==> !flags[j],
        },
{
    match first_true(flags) {
        Some(i) => {},
        None => {
            assert forall|j: int| 0 <= j < flags.len() implies !flags[j] by {
                if flags[j] {
                    lemma_first_true_exists(flags, j);
                }
            }
        },
    }
}

/// A sequence without any `true` has no first one.
pub proof fn lemma_first_true_none(flags: Seq<bool>)
    requires
        forall|j: int| 0 <= j < flags.len() ==> !flags[j],
    ensures
        first_true(flags) is None,
{
    if first_true(flags) is Some {
        let i = first_true(flags)->0;
        assert(is_first_true(flags, i));
        assert(!flags[i]);
    }
}

} // verus!
