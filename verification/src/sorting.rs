//! Stable sorting by a descending key, as insertion: each item goes after every
//! item whose key is at least its own.

use vstd::prelude::*;

verus! {

/// The first index at or after `i` whose key is below `k`, or the length.
pub open spec fn first_below<T>(s: Seq<T>, key: spec_fn(T) -> int, k: int, i: int) -> int
    decreases s.len() - i,
{
    if i >= s.len() {
        s.len() as int
    } else if key(s[i]) < k {
        i
    } else {
        first_below(s, key, k, i + 1)
    }
}

/// `x` inserted after every item of `s` whose key is at least its own.
pub open spec fn insert_desc<T>(s: Seq<T>, key: spec_fn(T) -> int, x: T) -> Seq<T> {
    s.insert(first_below(s, key, key(x), 0), x)
}

/// `s` sorted by descending key, items with equal keys in the order they came.
pub open spec fn sort_desc<T>(s: Seq<T>, key: spec_fn(T) -> int) -> Seq<T>
    decreases s.len(),
{
    if s.len() == 0 {
        seq![]
    } else {
        insert_desc(sort_desc(s.drop_last(), key), key, s.last())
    }
}

/// Keys never increase along `s`.
pub open spec fn sorted_desc<T>(s: Seq<T>, key: spec_fn(T) -> int) -> bool {
    forall|i: int, j: int| 0 <= i < j < s.len() ==> key(#[trigger] s[i]) >= key(#[trigger] s[j])
}

proof fn lemma_first_below<T>(s: Seq<T>, key: spec_fn(T) -> int, k: int, i: int)
    requires
        0 <= i <= s.len(),
    ensures
        i <= first_below(s, key, k, i) <= s.len(),
        forall|j: int| i <= j < first_below(s, key, k, i) ==> key(#[trigger] s[j]) >= k,
        first_below(s, key, k, i) < s.len() ==> key(s[first_below(s, key, k, i)]) < k,
    decreases s.len() - i,
{
    if i < s.len() && key(s[i]) >= k {
        lemma_first_below(s, key, k, i + 1);
    }
}

/// The insertion point lies within the sequence.
pub proof fn lemma_first_below_bounds<T>(s: Seq<T>, key: spec_fn(T) -> int, k: int)
    ensures
        0 <= first_below(s, key, k, 0) <= s.len(),
{
    lemma_first_below(s, key, k, 0);
}

/// Inserting into a sorted sequence keeps it sorted.
proof fn lemma_insert_sorted<T>(s: Seq<T>, key: spec_fn(T) -> int, x: T)
    requires
        sorted_desc(s, key),
    ensures
        sorted_desc(insert_desc(s, key, x), key),
{
    let p = first_below(s, key, key(x), 0);
    lemma_first_below(s, key, key(x), 0);
    let r = insert_desc(s, key, x);
    assert forall|i: int, j: int| 0 <= i < j < r.len() implies key(#[trigger] r[i]) >= key(#[trigger] r[j]) by {
        if j < p {
            assert(r[i] == s[i] && r[j] == s[j]);
        } else if j == p {
            assert(r[j] == x);
            assert(r[i] == s[i]);
        } else if i < p {
            assert(r[i] == s[i] && r[j] == s[j - 1]);
            if p < s.len() {
                assert(key(s[i]) >= key(x));
            }
        } else if i == p {
            assert(r[i] == x && r[j] == s[j - 1]);
            assert(key(s[p]) < key(x));
            assert(key(s[p]) >= key(s[j - 1]) || p == j - 1);
        } else {
            assert(r[i] == s[i - 1] && r[j] == s[j - 1]);
        }
    }
}

/// The sorted sequence is sorted and holds the same items.
pub proof fn law_sort_desc<T>(s: Seq<T>, key: spec_fn(T) -> int)
    ensures
        sorted_desc(sort_desc(s, key), key),
        sort_desc(s, key).to_multiset() == s.to_multiset(),
        sort_desc(s, key).len() == s.len(),
    decreases s.len(),
{
    broadcast use vstd::seq_lib::group_to_multiset_ensures;
    if s.len() > 0 {
        law_sort_desc(s.drop_last(), key);
        let prev = sort_desc(s.drop_last(), key);
        lemma_insert_sorted(prev, key, s.last());
        lemma_first_below(prev, key, key(s.last()), 0);
        let p = first_below(prev, key, key(s.last()), 0);
        vstd::seq_lib::to_multiset_insert(prev, p, s.last());
        assert(s =~= s.drop_last().push(s.last()));
        vstd::seq_lib::to_multiset_build(s.drop_last(), s.last());
    }
}

} // verus!
