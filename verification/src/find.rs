//! The first position of a sequence that satisfies a predicate.
use vstd::prelude::*;

verus! {

/// `i` is the first position below `n` where `p` holds.
pub open spec fn is_first(n: int, p: spec_fn(int) -> bool, i: int) -> bool {
    0 <= i < n && p(i) && forall|j: int| 0 <= j < i ==> !#[trigger] p(j)
}

/// The first position below `n` where `p` holds, if any.
pub open spec fn first_match(n: int, p: spec_fn(int) -> bool) -> Option<int> {
    if exists|i: int| is_first(n, p, i) {
        Some(choose|i: int| is_first(n, p, i))
    } else {
        None
    }
}

/// The first position is the one found.
pub proof fn lemma_first_match_at(n: int, p: spec_fn(int) -> bool, i: int)
    requires
        is_first(n, p, i),
    ensures
        first_match(n, p) == Some(i),
{
    let c = choose|k: int| is_first(n, p, k);
    assert(is_first(n, p, c));
    if c < i {
        assert(!p(c));
    } else if c > i {
        assert(!p(i));
    }
}

/// Where `p` holds nowhere below `n`, there is no first position.
pub proof fn lemma_first_match_none(n: int, p: spec_fn(int) -> bool)
    requires
        forall|j: int| 0 <= j < n ==> !#[trigger] p(j),
    ensures
        first_match(n, p) is None,
{
    if exists|i: int| is_first(n, p, i) {
        let c = choose|k: int| is_first(n, p, k);
        assert(p(c));
    }
}

/// Where `p` holds somewhere below `n`, there is a first such position.
pub proof fn lemma_first_match_exists(n: int, p: spec_fn(int) -> bool, j: int)
    requires
        0 <= j < n,
        p(j),
    ensures
        first_match(n, p) is Some,
    decreases j,
{
    if exists|k: int| 0 <= k < j && #[trigger] p(k) {
        let k = choose|k: int| 0 <= k < j && #[trigger] p(k);
        lemma_first_match_exists(n, p, k);
    } else {
        assert(is_first(n, p, j));
    }
}

} // verus!
