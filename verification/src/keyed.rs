//! Keyed sequences: a sequence of key/value entries read as a map.
//!
//! A source collection that may repeat keys is read by folding its entries
//! in order, later entries replacing earlier ones. A sequence whose keys are
//! distinct is read directly as the map from each key to its value.

use vstd::prelude::*;

verus! {

/// The keys of `s` (through `kf`) are pairwise distinct.
pub open spec fn distinct_keys<K, V, A>(s: Seq<(K, V)>, kf: spec_fn(K) -> A) -> bool {
    forall|i: int, j: int| 0 <= i < s.len() && 0 <= j < s.len() && i != j ==> kf(#[trigger] s[i].0) != kf(#[trigger] s[j].0)
}

/// `s` holds an entry with key `a`.
pub open spec fn has_key<K, V, A>(s: Seq<(K, V)>, kf: spec_fn(K) -> A, a: A) -> bool {
    exists|i: int| 0 <= i < s.len() && kf(#[trigger] s[i].0) == a
}

/// The position of an entry with key `a`.
pub open spec fn key_index<K, V, A>(s: Seq<(K, V)>, kf: spec_fn(K) -> A, a: A) -> int {
    choose|i: int| 0 <= i < s.len() && kf(#[trigger] s[i].0) == a
}

/// A sequence with distinct keys read as a map.
pub open spec fn entry_map<K, V, A, B>(s: Seq<(K, V)>, kf: spec_fn(K) -> A, vf: spec_fn(V) -> B) -> Map<A, B> {
    Map::new(|a: A| has_key(s, kf, a), |a: A| vf(s[key_index(s, kf, a)].1))
}

/// A sequence read in order, a later entry replacing an earlier one with the
/// same key.
pub open spec fn fold_entries<K, V, A, B>(s: Seq<(K, V)>, kf: spec_fn(K) -> A, vf: spec_fn(V) -> B) -> Map<A, B>
    decreases s.len(),
{
    if s.len() == 0 {
        Map::empty()
    } else {
        fold_entries(s.drop_last(), kf, vf).insert(kf(s.last().0), vf(s.last().1))
    }
}

/// The fold of a prefix extended by one entry.
pub proof fn lemma_fold_step<K, V, A, B>(s: Seq<(K, V)>, i: int, kf: spec_fn(K) -> A, vf: spec_fn(V) -> B)
    requires
        0 <= i < s.len(),
    ensures
        fold_entries(s.subrange(0, i + 1), kf, vf) == fold_entries(s.subrange(0, i), kf, vf).insert(kf(s[i].0), vf(s[i].1)),
{
    assert(s.subrange(0, i + 1).drop_last() =~= s.subrange(0, i));
}

/// The empty sequence reads as the empty map.
pub proof fn lemma_entry_map_empty<K, V, A, B>(s: Seq<(K, V)>, kf: spec_fn(K) -> A, vf: spec_fn(V) -> B)
    requires
        s.len() == 0,
    ensures
        entry_map(s, kf, vf) == Map::<A, B>::empty(),
{
    assert(entry_map(s, kf, vf) =~= Map::<A, B>::empty());
}

/// Replacing the entry at `p` by one with the same key updates the map at
/// that key.
pub proof fn lemma_entry_map_update<K, V, A, B>(s: Seq<(K, V)>, p: int, e: (K, V), kf: spec_fn(K) -> A, vf: spec_fn(V) -> B)
    requires
        distinct_keys(s, kf),
        0 <= p < s.len(),
        kf(e.0) == kf(s[p].0),
    ensures
        distinct_keys(s.update(p, e), kf),
        entry_map(s.update(p, e), kf, vf) == entry_map(s, kf, vf).insert(kf(e.0), vf(e.1)),
{
    let t = s.update(p, e);
    assert forall|i: int, j: int| 0 <= i < t.len() && 0 <= j < t.len() && i != j implies kf(#[trigger] t[i].0) != kf(#[trigger] t[j].0) by {
        assert(kf(t[i].0) == kf(s[i].0));
        assert(kf(t[j].0) == kf(s[j].0));
    }
    let m = entry_map(t, kf, vf);
    let n = entry_map(s, kf, vf).insert(kf(e.0), vf(e.1));
    assert forall|a: A| #[trigger] m.dom().contains(a) <==> n.dom().contains(a) by {
        if has_key(t, kf, a) {
            let i = choose|i: int| 0 <= i < t.len() && kf(#[trigger] t[i].0) == a;
            assert(kf(s[i].0) == a);
        }
        if has_key(s, kf, a) {
            let i = choose|i: int| 0 <= i < s.len() && kf(#[trigger] s[i].0) == a;
            assert(kf(t[i].0) == a);
        }
        if a == kf(e.0) {
            assert(kf(t[p].0) == a);
        }
    }
    assert forall|a: A| #[trigger] m.dom().contains(a) implies m[a] == n[a] by {
        let i = key_index(t, kf, a);
        assert(kf(t[i].0) == a);
        if a == kf(e.0) {
            assert(kf(t[p].0) == a);
            assert(i == p);
        } else {
            assert(i != p);
            assert(kf(s[i].0) == a);
            let j = key_index(s, kf, a);
            assert(kf(s[j].0) == a);
            assert(i == j);
        }
    }
    assert(m =~= n);
}

/// Inserting at `p` an entry whose key is new extends the map at that key.
pub proof fn lemma_entry_map_insert<K, V, A, B>(s: Seq<(K, V)>, p: int, e: (K, V), kf: spec_fn(K) -> A, vf: spec_fn(V) -> B)
    requires
        distinct_keys(s, kf),
        0 <= p <= s.len(),
        !has_key(s, kf, kf(e.0)),
    ensures
        distinct_keys(s.insert(p, e), kf),
        entry_map(s.insert(p, e), kf, vf) == entry_map(s, kf, vf).insert(kf(e.0), vf(e.1)),
{
    let t = s.insert(p, e);
    assert(t.len() == s.len() + 1);
    assert forall|i: int| 0 <= i < t.len() implies #[trigger] t[i] == (if i < p { s[i] } else if i == p { e } else { s[i - 1] }) by {}
    assert forall|i: int, j: int| 0 <= i < t.len() && 0 <= j < t.len() && i != j implies kf(#[trigger] t[i].0) != kf(#[trigger] t[j].0) by {
        if i == p {
            if j < p {
                assert(kf(s[j].0) == kf(t[j].0));
            } else {
                assert(kf(s[j - 1].0) == kf(t[j].0));
            }
        } else if j == p {
            if i < p {
                assert(kf(s[i].0) == kf(t[i].0));
            } else {
                assert(kf(s[i - 1].0) == kf(t[i].0));
            }
        } else {
            let si = if i < p { i } else { i - 1 };
            let sj = if j < p { j } else { j - 1 };
            assert(kf(s[si].0) == kf(t[i].0));
            assert(kf(s[sj].0) == kf(t[j].0));
        }
    }
    let m = entry_map(t, kf, vf);
    let n = entry_map(s, kf, vf).insert(kf(e.0), vf(e.1));
    assert forall|a: A| #[trigger] m.dom().contains(a) <==> n.dom().contains(a) by {
        if has_key(t, kf, a) {
            let i = choose|i: int| 0 <= i < t.len() && kf(#[trigger] t[i].0) == a;
            if i < p {
                assert(kf(s[i].0) == a);
            } else if i > p {
                assert(kf(s[i - 1].0) == a);
            }
        }
        if has_key(s, kf, a) {
            let i = choose|i: int| 0 <= i < s.len() && kf(#[trigger] s[i].0) == a;
            if i < p {
                assert(kf(t[i].0) == a);
            } else {
                assert(kf(t[i + 1].0) == a);
            }
        }
        if a == kf(e.0) {
            assert(kf(t[p].0) == a);
        }
    }
    assert forall|a: A| #[trigger] m.dom().contains(a) implies m[a] == n[a] by {
        let i = key_index(t, kf, a);
        assert(kf(t[i].0) == a);
        if a == kf(e.0) {
            assert(kf(t[p].0) == a);
            assert(i == p);
        } else {
            let si = if i < p { i } else { i - 1 };
            assert(i != p);
            assert(kf(s[si].0) == a);
            let j = key_index(s, kf, a);
            assert(kf(s[j].0) == a);
            assert(si == j);
        }
    }
    assert(m =~= n);
}

} // verus!
