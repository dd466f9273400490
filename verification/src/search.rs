//! First-match search over sequences, shared by the registries and profile lists.

use vstd::prelude::*;

verus! {

/// Index of the first element of `s` that satisfies `p`, if any.
pub open spec fn first_index<T>(s: Seq<T>, p: spec_fn(T) -> bool) -> Option<int> {
    if exists|i: int| is_first_index(s, p, i) {
        Some(choose|i: int| is_first_index(s, p, i))
    } else {
        None
    }
}

/// `i` is the first position of `s` whose element satisfies `p`.
pub open spec fn is_first_index<T>(s: Seq<T>, p: spec_fn(T) -> bool, i: int) -> bool {
    &&& 0 <= i < s.len()
    &&& p(s[i])
    &&& forall|j: int| 0 <= j < i ==> !p(#[trigger] s[j])
}

/// If position `i` is the first match, `first_index` names it.
pub proof fn lemma_first_index_at<T>(s: Seq<T>, p: spec_fn(T) -> bool, i: int)
    requires
        is_first_index(s, p, i),
    ensures
        first_index(s, p) == Some(i),
{
    let k = choose|k: int| is_first_index(s, p, k);
    assert(is_first_index(s, p, k));
    if k < i {
        assert(!p(s[k]));
    } else if k > i {
        assert(!p(s[i]));
    }
}

/// If no element matches, `first_index` is `None`.
pub proof fn lemma_first_index_none<T>(s: Seq<T>, p: spec_fn(T) -> bool)
    requires
        forall|j: int| 0 <= j < s.len() ==> !p(#[trigger] s[j]),
    ensures
        first_index(s, p) is None,
{
    if exists|i: int| is_first_index(s, p, i) {
        let k = choose|k: int| is_first_index(s, p, k);
        assert(p(s[k]));
    }
}

/// Some element matches, so there is a first match.
pub proof fn lemma_first_index_exists<T>(s: Seq<T>, p: spec_fn(T) -> bool, j: int)
    requires
        0 <= j < s.len(),
        p(s[j]),
    ensures
        first_index(s, p) is Some,
    decreases j,
{
    if forall|l: int| 0 <= l < j ==> !p(#[trigger] s[l]) {
        assert(is_first_index(s, p, j));
    } else {
        let l = choose|l: int| 0 <= l < j && p(#[trigger] s[l]);
        lemma_first_index_exists(s, p, l);
    }
}

} // verus!
