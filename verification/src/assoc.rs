//! Association lists: sequences of key-value pairs, read as finite maps.
//!
//! Both tables of this crate keep their entries in a vector. The functions
//! here say, over sequences, what such a vector means as a map, and the
//! lemmas relate the operations on the sequence to those on the map.

use vstd::prelude::*;

verus! {

/// Whether some entry of `s` has the key `k`.
pub open spec fn has_key<K, V>(s: Seq<(K, V)>, k: K) -> bool {
    exists|i: int| 0 <= i < s.len() && (#[trigger] s[i]).0 == k
}

/// The index of an entry of `s` with the key `k`, if there is one.
pub open spec fn position<K, V>(s: Seq<(K, V)>, k: K) -> int {
    choose|i: int| 0 <= i < s.len() && (#[trigger] s[i]).0 == k
}

/// The value that `s` holds for `k`.
pub open spec fn lookup<K, V>(s: Seq<(K, V)>, k: K) -> Option<V> {
    if has_key(s, k) {
        Some(s[position(s, k)].1)
    } else {
        None
    }
}

/// No key occurs in two entries of `s`.
pub open spec fn distinct_keys<K, V>(s: Seq<(K, V)>) -> bool {
    forall|i: int, j: int|
        0 <= i < s.len() && 0 <= j < s.len() && i != j ==> (#[trigger] s[i]).0 != (#[trigger] s[j]).0
}

/// `s` with `v` stored under `k`: in the place of the entry that had the key,
/// or at the end if there was none.
pub open spec fn store<K, V>(s: Seq<(K, V)>, k: K, v: V) -> Seq<(K, V)> {
    if has_key(s, k) {
        s.update(position(s, k), (k, v))
    } else {
        s.push((k, v))
    }
}

/// `s` as a map from keys to values.
pub open spec fn as_map<K, V>(s: Seq<(K, V)>) -> Map<K, V> {
    Map::new(|k: K| has_key(s, k), |k: K| s[position(s, k)].1)
}

/// With distinct keys, the entry at an index is the one found for its key.
pub proof fn lemma_lookup_at<K, V>(s: Seq<(K, V)>, i: int)
    requires
        distinct_keys(s),
        0 <= i < s.len(),
    ensures
        has_key(s, s[i].0),
        position(s, s[i].0) == i,
        lookup(s, s[i].0) == Some(s[i].1),
{
}

/// What is found is what the map holds.
pub proof fn lemma_lookup_is_map_get<K, V>(s: Seq<(K, V)>, k: K)
    ensures
        lookup(s, k) == (if as_map(s).contains_key(k) {
            Some(as_map(s)[k])
        } else {
            None
        }),
{
}

/// Storing keeps the keys distinct, and adds an entry exactly if the key is
/// new.
pub proof fn lemma_store_distinct<K, V>(s: Seq<(K, V)>, k: K, v: V)
    requires
        distinct_keys(s),
    ensures
        distinct_keys(store(s, k, v)),
        store(s, k, v).len() == (if has_key(s, k) {
            s.len()
        } else {
            s.len() + 1
        }),
{
}

/// After storing, the key holds the new value and every other key holds what
/// it held before.
pub proof fn lemma_store_lookup<K, V>(s: Seq<(K, V)>, k: K, v: V, other: K)
    requires
        distinct_keys(s),
    ensures
        lookup(store(s, k, v), other) == (if other == k {
            Some(v)
        } else {
            lookup(s, other)
        }),
{
    let t = store(s, k, v);
    lemma_store_distinct(s, k, v);
    if other == k {
        let at = if has_key(s, k) {
            position(s, k)
        } else {
            s.len() as int
        };
        lemma_lookup_at(t, at);
    } else if has_key(s, other) {
        lemma_lookup_at(t, position(s, other));
    }
}

/// Storing in the list is inserting in the map.
pub proof fn lemma_store_as_map<K, V>(s: Seq<(K, V)>, k: K, v: V)
    requires
        distinct_keys(s),
    ensures
        as_map(store(s, k, v)) == as_map(s).insert(k, v),
{
    let t = store(s, k, v);
    assert forall|other: K| #[trigger] has_key(t, other) == (other == k || has_key(s, other)) by {
        lemma_store_lookup(s, k, v, other);
    }
    assert forall|other: K| has_key(t, other) implies #[trigger] as_map(t)[other] == as_map(
        s,
    ).insert(k, v)[other] by {
        lemma_store_lookup(s, k, v, other);
    }
}

/// A list with distinct keys is a finite map with one key for each entry.
pub proof fn lemma_as_map_len<K, V>(s: Seq<(K, V)>)
    requires
        distinct_keys(s),
    ensures
        as_map(s).dom().finite(),
        as_map(s).dom().len() == s.len(),
    decreases s.len(),
{
    if s.len() == 0 {
        assert(as_map(s).dom() =~= Set::<K>::empty());
    } else {
        // The list is its front with its last entry stored, under a key that
        // the front does not hold.
        let init = s.drop_last();
        let last = s.last();
        assert(store(init, last.0, last.1) =~= s);
        lemma_store_as_map(init, last.0, last.1);
        lemma_as_map_len(init);
    }
}

/// Dropping entries from the front keeps the keys distinct, and a key is then
/// found exactly if its entry was not among those dropped.
pub proof fn lemma_skip_lookup<K, V>(s: Seq<(K, V)>, n: int, k: K)
    requires
        distinct_keys(s),
        0 <= n <= s.len(),
    ensures
        distinct_keys(s.skip(n)),
        lookup(s.skip(n), k) == (if has_key(s, k) && position(s, k) >= n {
            lookup(s, k)
        } else {
            None
        }),
{
    let t = s.skip(n);
    if has_key(s, k) && position(s, k) >= n {
        lemma_lookup_at(t, position(s, k) - n);
    } else if has_key(t, k) {
        lemma_lookup_at(s, position(t, k) + n);
    }
}

} // verus!
