//! First-match search over sequences.

use vstd::prelude::*;

verus! {

/// Whether `i` is the first position of `s` whose element satisfies `p`.
pub open spec fn is_first<A>(s: Seq<A>, p: spec_fn(A) -> bool, i: int) -> bool {
    &&& 0 <= i < s.len()
    &&& p(s[i])
    &&& forall|j: int| 0 <= j < i ==> !p(#[trigger] s[j])
}

/// Whether some element of `s` satisfies `p`.
pub open spec fn any<A>(s: Seq<A>, p: spec_fn(A) -> bool) -> bool {
    exists|i: int| 0 <= i < s.len() && p(#[trigger] s[i])
}

/// The first position of `s` whose element satisfies `p`.
pub open spec fn first<A>(s: Seq<A>, p: spec_fn(A) -> bool) -> int {
    choose|i: int| is_first(s, p, i)
}

pub proof fn lemma_first<A>(s: Seq<A>, p: spec_fn(A) -> bool, i: int)
    requires
        is_first(s, p, i),
    ensures
        first(s, p) == i,
        any(s, p),
{
    let k = first(s, p);
    assert(is_first(s, p, k));
    if k < i {
        assert(!p(s[k]));
    } else if i < k {
        assert(!p(s[i]));
    }
}

/// When some element of `s` satisfies `p`, a first one does.
pub proof fn lemma_exists_first<A>(s: Seq<A>, p: spec_fn(A) -> bool, i: int)
    requires
        0 <= i < s.len(),
        p(s[i]),
    ensures
        is_first(s, p, first(s, p)),
    decreases i,
{
    if exists|j: int| 0 <= j < i && p(#[trigger] s[j]) {
        let j = choose|j: int| 0 <= j < i && p(#[trigger] s[j]);
        lemma_exists_first(s, p, j);
    } else {
        assert(is_first(s, p, i));
    }
}

} // verus!
