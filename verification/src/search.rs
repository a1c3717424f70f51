//! "First match wins": the first element of a sequence that satisfies a
//! predicate. Both the mapping scan and the region scan are this search.

use vstd::prelude::*;

verus! {

/// `i` is the position of the first element of `s` that satisfies `pred`:
/// the element at `i` satisfies it and no earlier one does.
pub open spec fn is_first<A>(s: Seq<A>, pred: spec_fn(A) -> bool, i: int) -> bool {
    &&& 0 <= i < s.len()
    &&& pred(s[i])
    &&& forall|j: int| 0 <= j < i ==> !pred(#[trigger] s[j])
}

/// The position of the first element of `s` that satisfies `pred`, if any
/// element does.
pub open spec fn first_where<A>(s: Seq<A>, pred: spec_fn(A) -> bool) -> Option<int> {
    if exists|i: int| is_first(s, pred, i) {
        Some(choose|i: int| is_first(s, pred, i))
    } else {
        None
    }
}

/// At most one position is the first.
pub proof fn lemma_first_unique<A>(s: Seq<A>, pred: spec_fn(A) -> bool, i: int, k: int)
    requires
        is_first(s, pred, i),
        is_first(s, pred, k),
    ensures
        i == k,
{
    if i < k {
        assert(!pred(s[i]));
    } else if k < i {
        assert(!pred(s[k]));
    }
}

/// A position that is the first is the one `first_where` gives.
pub proof fn lemma_first_found<A>(s: Seq<A>, pred: spec_fn(A) -> bool, i: int)
    requires
        is_first(s, pred, i),
    ensures
        first_where(s, pred) == Some(i),
{
    let k = choose|k: int| is_first(s, pred, k);
    lemma_first_unique(s, pred, i, k);
}

/// Where no element satisfies the predicate, there is no first.
pub proof fn lemma_first_absent<A>(s: Seq<A>, pred: spec_fn(A) -> bool)
    requires
        forall|j: int| 0 <= j < s.len() ==> !pred(#[trigger] s[j]),
    ensures
        first_where(s, pred) is None,
{
    assert forall|k: int| !is_first(s, pred, k) by {
        if 0 <= k < s.len() {
            assert(!pred(s[k]));
        }
    }
}

/// Where the element at `i` satisfies the predicate, there is a first, at
/// `i` or before it.
pub proof fn lemma_first_exists<A>(s: Seq<A>, pred: spec_fn(A) -> bool, i: int)
    requires
        0 <= i < s.len(),
        pred(s[i]),
    ensures
        first_where(s, pred) matches Some(k) && is_first(s, pred, k) && k <= i,
    decreases i,
{
    if exists|j: int| 0 <= j < i && pred(#[trigger] s[j]) {
        let j = choose|j: int| 0 <= j < i && pred(#[trigger] s[j]);
        lemma_first_exists(s, pred, j);
    } else {
        assert(is_first(s, pred, i));
        lemma_first_found(s, pred, i);
    }
}

} // verus!
