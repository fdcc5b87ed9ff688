//! Finding the first item of a sequence that meets a condition.

use vstd::prelude::*;

verus! {

/// `i` is the least index at which `pred` holds in `s`.
pub open spec fn is_first<T>(s: Seq<T>, pred: spec_fn(T) -> bool, i: int) -> bool {
    &&& 0 <= i < s.len()
    &&& pred(s[i])
    &&& forall|j: int| 0 <= j < i ==> !pred(#[trigger] s[j])
}

/// The least index at which `pred` holds in `s`, if it holds anywhere.
pub open spec fn first_index<T>(s: Seq<T>, pred: spec_fn(T) -> bool) -> Option<int> {
    if exists|i: int| is_first(s, pred, i) {
        Some(choose|i: int| is_first(s, pred, i))
    } else {
        None
    }
}

/// An index with nothing before it that meets the condition is the first.
pub proof fn lemma_first_index_is<T>(s: Seq<T>, pred: spec_fn(T) -> bool, i: int)
    requires
        is_first(s, pred, i),
    ensures
        first_index(s, pred) == Some(i),
{
    let c = choose|c: int| is_first(s, pred, c);
    assert(is_first(s, pred, c));
    if c < i {
        assert(!pred(s[c]));
    } else if i < c {
        assert(!pred(s[i]));
    }
}

/// Where the condition holds nowhere, there is no first index.
pub proof fn lemma_first_index_none<T>(s: Seq<T>, pred: spec_fn(T) -> bool)
    requires
        forall|j: int| 0 <= j < s.len() ==> !pred(#[trigger] s[j]),
    ensures
        first_index(s, pred) is None,
{
}

/// The first index, where there is one, is a place at which the condition
/// holds; where there is none, it holds nowhere.
pub proof fn lemma_first_index<T>(s: Seq<T>, pred: spec_fn(T) -> bool)
    ensures
        match first_index(s, pred) {
            Some(i) => is_first(s, pred, i),
            None => forall|j: int| 0 <= j < s.len() ==> !pred(#[trigger] s[j]),
        },
{
    if first_index(s, pred) is None {
        assert forall|j: int| 0 <= j < s.len() implies !pred(#[trigger] s[j]) by {
            if pred(s[j]) {
                lemma_least(s, pred, j);
            }
        }
    }
}

/// Where the condition holds at `j`, it holds first at some index.
proof fn lemma_least<T>(s: Seq<T>, pred: spec_fn(T) -> bool, j: int)
    requires
        0 <= j < s.len(),
        pred(s[j]),
    ensures
        exists|i: int| is_first(s, pred, i),
    decreases j,
{
    if exists|k: int| 0 <= k < j && pred(#[trigger] s[k]) {
        let k = choose|k: int| 0 <= k < j && pred(#[trigger] s[k]);
        lemma_least(s, pred, k);
    } else {
        assert(is_first(s, pred, j));
    }
}

} // verus!
