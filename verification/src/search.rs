//! First, largest and smallest positions in a range of indices.
use vstd::prelude::*;

verus! {

/// `i` is the first index below `n` at which `p` holds.
pub open spec fn is_first(n: int, p: spec_fn(int) -> bool, i: int) -> bool {
    &&& 0 <= i < n
    &&& p(i)
    &&& forall|j: int| 0 <= j < i ==> !(#[trigger] p(j))
}

/// The first index below `n` at which `p` holds.
pub open spec fn first(n: int, p: spec_fn(int) -> bool) -> Option<int> {
    if exists|i: int| is_first(n, p, i) {
        Some(choose|i: int| is_first(n, p, i))
    } else {
        None
    }
}

/// Among the indices below `n` at which `p` holds, `i` is the one with the
/// largest key, and the last of those.
pub open spec fn is_last_max(n: int, p: spec_fn(int) -> bool, key: spec_fn(int) -> int, i: int) -> bool {
    &&& 0 <= i < n
    &&& p(i)
    &&& forall|j: int| 0 <= j < n && #[trigger] p(j) ==> key(j) < key(i) || (key(j) == key(i) && j <= i)
}

/// Where the key is largest among the indices at which `p` holds; the last of several.
pub open spec fn last_max(n: int, p: spec_fn(int) -> bool, key: spec_fn(int) -> int) -> Option<int> {
    if exists|i: int| is_last_max(n, p, key, i) {
        Some(choose|i: int| is_last_max(n, p, key, i))
    } else {
        None
    }
}

/// `i` is the index below `n` with the smallest key, and the first of those.
pub open spec fn is_first_min(n: int, key: spec_fn(int) -> int, i: int) -> bool {
    &&& 0 <= i < n
    &&& forall|j: int| 0 <= j < n ==> key(i) < #[trigger] key(j) || (key(i) == key(j) && i <= j)
}

/// Where the key is smallest; the first of several.
pub open spec fn first_min(n: int, key: spec_fn(int) -> int) -> Option<int> {
    if exists|i: int| is_first_min(n, key, i) {
        Some(choose|i: int| is_first_min(n, key, i))
    } else {
        None
    }
}

/// The first index is unique.
pub proof fn lemma_first_is(n: int, p: spec_fn(int) -> bool, i: int)
    requires
        is_first(n, p, i),
    ensures
        first(n, p) == Some(i),
{
    let k = choose|k: int| is_first(n, p, k);
    assert(is_first(n, p, k));
    if k < i {
        assert(!p(k));
    } else if i < k {
        assert(!p(i));
    }
}

/// Where `p` holds nowhere there is no first index.
pub proof fn lemma_first_none(n: int, p: spec_fn(int) -> bool)
    requires
        forall|j: int| 0 <= j < n ==> !(#[trigger] p(j)),
    ensures
        first(n, p) is None,
{
}

/// Where `p` holds somewhere there is a first index.
pub proof fn lemma_first_exists(n: int, p: spec_fn(int) -> bool, i: int)
    requires
        0 <= i < n,
        p(i),
    ensures
        first(n, p) matches Some(k) && is_first(n, p, k),
    decreases i,
{
    if forall|j: int| 0 <= j < i ==> !(#[trigger] p(j)) {
        assert(is_first(n, p, i));
        lemma_first_is(n, p, i);
    } else {
        let j = choose|j: int| 0 <= j < i && #[trigger] p(j);
        lemma_first_exists(n, p, j);
    }
}

/// The last of the largest is unique.
pub proof fn lemma_last_max_is(n: int, p: spec_fn(int) -> bool, key: spec_fn(int) -> int, i: int)
    requires
        is_last_max(n, p, key, i),
    ensures
        last_max(n, p, key) == Some(i),
{
    let k = choose|k: int| is_last_max(n, p, key, k);
    assert(is_last_max(n, p, key, k));
    assert(p(k) && p(i));
}

/// The first of the smallest is unique.
pub proof fn lemma_first_min_is(n: int, key: spec_fn(int) -> int, i: int)
    requires
        is_first_min(n, key, i),
    ensures
        first_min(n, key) == Some(i),
{
    let k = choose|k: int| is_first_min(n, key, k);
    assert(is_first_min(n, key, k));
    assert(key(k) <= key(i) && key(i) <= key(k));
}

} // verus!
