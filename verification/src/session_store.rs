//! Stores of session-resumption state, keyed by session identifier.

use vstd::prelude::*;
use crate::assoc::{
    as_map, distinct_keys, has_key, lemma_as_map_len, lemma_lookup_at, lemma_lookup_is_map_get,
    lemma_skip_lookup, lemma_store_as_map, lemma_store_distinct, lemma_store_lookup, lookup, store,
};
use crate::rand::fill_random;
use crate::session_id::SessionID;
use crate::vec_map::VecMap;

verus! {

/// What a handshake needs from a store of resumable sessions.
pub trait StoresServerSessions {
    /// The store is in a state that its own operations leave it in.
    spec fn wf(&self) -> bool;

    /// The state stored under each identifier.
    spec fn sessions(&self) -> Map<Seq<u8>, Seq<u8>>;

    /// A fresh session identifier. The empty identifier means that the session
    /// cannot be resumed.
    fn generate(&self) -> (id: SessionID);

    /// Stores `sec` under `id`, in place of what was stored there. If the
    /// answer is `false` nothing was stored. A store may drop entries to make
    /// room, but it never makes one up.
    fn put(&mut self, id: Vec<u8>, sec: Vec<u8>) -> (stored: bool)
        requires
            old(self).wf(),
        ensures
            final(self).wf(),
            !stored ==> final(self).sessions() == old(self).sessions(),
            stored ==> final(self).sessions().submap_of(old(self).sessions().insert(id@, sec@)),
    ;

    /// A copy of what is stored under `id`.
    fn get(&self, id: &[u8]) -> (found: Option<Vec<u8>>)
        requires
            self.wf(),
        ensures
            match found {
                Some(sec) => self.sessions().contains_key(id@) && self.sessions()[id@] == sec@,
                None => !self.sessions().contains_key(id@),
            },
    ;
}

/// A store that never stores: with it no session can be resumed.
pub struct NoServerSessionStorage {}

impl StoresServerSessions for NoServerSessionStorage {
    open spec fn wf(&self) -> bool {
        true
    }

    open spec fn sessions(&self) -> Map<Seq<u8>, Seq<u8>> {
        Map::empty()
    }

    fn generate(&self) -> (id: SessionID)
        ensures
            id@ == Seq::<u8>::empty(),
    {
        SessionID::empty()
    }

    fn put(&mut self, _id: Vec<u8>, _sec: Vec<u8>) -> (stored: bool)
        ensures
            !stored,
    {
        false
    }

    fn get(&self, _id: &[u8]) -> (found: Option<Vec<u8>>)
        ensures
            found is None,
    {
        None
    }
}

/// The entries of a session cache, oldest first.
pub type Sessions = Seq<(Seq<u8>, Seq<u8>)>;

/// `s` without its oldest entries, as far as it held more than `max`.
pub open spec fn trimmed(s: Sessions, max: nat) -> Sessions {
    if s.len() > max {
        s.skip(s.len() - max)
    } else {
        s
    }
}

/// The entries of a cache bounded by `max` after `value` is put under `key`.
pub open spec fn after_put(s: Sessions, key: Seq<u8>, value: Seq<u8>, max: nat) -> Sessions {
    trimmed(store(s, key, value), max)
}

/// What holds of the entries of a cache bounded by `max`: no key occurs
/// twice, the bound is positive, and there are no more entries than the bound.
pub open spec fn bounded_sessions(s: Sessions, max: nat) -> bool {
    &&& distinct_keys(s)
    &&& 0 < max
    &&& s.len() <= max
}

/// A store that keeps sessions in memory, up to a fixed number of them.
///
/// When a new session would exceed the bound, the oldest entry leaves. The
/// store is plain data: a caller that shares it between threads puts it
/// behind a lock.
pub struct ServerSessionMemoryCache {
    cache: VecMap<Vec<u8>, Vec<u8>>,
    max_entries: usize,
}

impl View for ServerSessionMemoryCache {
    type V = Sessions;

    closed spec fn view(&self) -> Sessions {
        self.cache@
    }
}

impl ServerSessionMemoryCache {
    /// The bound on the number of entries.
    pub closed spec fn spec_max_entries(&self) -> nat {
        self.max_entries as nat
    }

    /// An empty cache that will hold at most `size` sessions.
    pub fn new(size: usize) -> (cache: ServerSessionMemoryCache)
        requires
            size > 0,
        ensures
            cache@ == Sessions::empty(),
            cache.spec_max_entries() == size,
            cache.wf(),
    {
        ServerSessionMemoryCache { cache: VecMap::new(), max_entries: size }
    }

    /// The bound on the number of entries.
    pub fn max_entries(&self) -> (max: usize)
        ensures
            max == self.spec_max_entries(),
    {
        self.max_entries
    }

    /// The number of entries held.
    pub fn len(&self) -> (n: usize)
        ensures
            n == self@.len(),
    {
        self.cache.len()
    }

    /// Drops the oldest entries until no more than the bound are left. Every
    /// put ends with this pass, so that on a cache between two puts it finds
    /// nothing to drop.
    pub fn limit_size(&mut self)
        ensures
            final(self)@ == trimmed(old(self)@, old(self).spec_max_entries()),
            final(self).spec_max_entries() == old(self).spec_max_entries(),
    {
        while self.cache.len() > self.max_entries
            invariant
                self.max_entries == old(self).max_entries,
                self@.len() <= old(self)@.len(),
                self@.len() >= self.max_entries || self@.len() == old(self)@.len(),
                self@ == old(self)@.skip(old(self)@.len() - self@.len()),
            decreases self@.len(),
        {
            self.cache.remove_oldest();
        }
    }
}

impl StoresServerSessions for ServerSessionMemoryCache {
    open spec fn wf(&self) -> bool {
        bounded_sessions(self@, self.spec_max_entries())
    }

    open spec fn sessions(&self) -> Map<Seq<u8>, Seq<u8>> {
        as_map(self@)
    }

    /// Thirty-two bytes from the system's secure random source.
    fn generate(&self) -> (id: SessionID)
        ensures
            id@.len() == 32,
    {
        let mut v = [0u8; 32];
        fill_random(&mut v);
        SessionID::new(v.as_slice())
    }

    /// Always stores. The entry stays where it was if the key was known, and
    /// is the newest otherwise; then the oldest entries leave until the bound
    /// holds.
    fn put(&mut self, key: Vec<u8>, value: Vec<u8>) -> (stored: bool)
        ensures
            stored,
            final(self)@ == after_put(old(self)@, key@, value@, old(self).spec_max_entries()),
            final(self).spec_max_entries() == old(self).spec_max_entries(),
            lookup(final(self)@, key@) == Some(value@),
    {
        self.cache.insert(key, value);
        self.limit_size();
        proof {
            lemma_put_keeps_bound(old(self)@, key@, value@, old(self).spec_max_entries());
            lemma_put_is_submap(old(self)@, key@, value@, old(self).spec_max_entries());
            lemma_put_then_get(old(self)@, key@, value@, old(self).spec_max_entries());
        }
        true
    }

    fn get(&self, key: &[u8]) -> (found: Option<Vec<u8>>)
        ensures
            (match found {
                Some(value) => Some(value@),
                None => None,
            }) == lookup(self@, key@),
    {
        proof {
            lemma_lookup_is_map_get(self@, key@);
        }
        match self.cache.get(key) {
            Some(value) => Some(value.clone()),
            None => None,
        }
    }
}

/// A put leaves the keys distinct and the number of entries within the
/// bound.
pub proof fn lemma_put_keeps_bound(s: Sessions, key: Seq<u8>, value: Seq<u8>, max: nat)
    requires
        bounded_sessions(s, max),
    ensures
        bounded_sessions(after_put(s, key, value, max), max),
{
    let t = store(s, key, value);
    lemma_store_distinct(s, key, value);
    if t.len() > max {
        lemma_skip_lookup(t, t.len() - max, key);
    }
}

/// A put adds nothing to the cache but the entry put.
pub proof fn lemma_put_is_submap(s: Sessions, key: Seq<u8>, value: Seq<u8>, max: nat)
    requires
        distinct_keys(s),
    ensures
        as_map(after_put(s, key, value, max)).submap_of(as_map(s).insert(key, value)),
{
    let t = store(s, key, value);
    let u = after_put(s, key, value, max);
    lemma_store_distinct(s, key, value);
    lemma_store_as_map(s, key, value);
    if t.len() > max {
        assert forall|k: Seq<u8>| #[trigger] as_map(u).dom().contains(k) implies as_map(
            t,
        ).dom().contains(k) && as_map(u)[k] == as_map(t)[k] by {
            lemma_skip_lookup(t, t.len() - max, k);
            lemma_lookup_is_map_get(u, k);
            lemma_lookup_is_map_get(t, k);
        }
    }
}

/// What was put can be got: right after a put, the key holds the value put,
/// whether the key was new or known.
pub proof fn lemma_put_then_get(s: Sessions, key: Seq<u8>, value: Seq<u8>, max: nat)
    requires
        bounded_sessions(s, max),
    ensures
        lookup(after_put(s, key, value, max), key) == Some(value),
{
    let t = store(s, key, value);
    lemma_store_distinct(s, key, value);
    lemma_store_lookup(s, key, value, key);
    if t.len() > max {
        lemma_lookup_at(t, t.len() - 1);
        lemma_skip_lookup(t, t.len() - max, key);
    }
}

/// Whether putting under `key` makes the cache drop its oldest entry: the key
/// is new and the cache is full.
pub open spec fn put_evicts(s: Sessions, key: Seq<u8>, max: nat) -> bool {
    !has_key(s, key) && s.len() == max
}

/// A put changes no other key, except that the oldest entry leaves when the
/// put evicts.
pub proof fn lemma_put_other_key(
    s: Sessions,
    key: Seq<u8>,
    value: Seq<u8>,
    max: nat,
    other: Seq<u8>,
)
    requires
        bounded_sessions(s, max),
        other != key,
    ensures
        lookup(after_put(s, key, value, max), other) == (if put_evicts(s, key, max) && other
            == s[0].0 {
            None
        } else {
            lookup(s, other)
        }),
{
    let t = store(s, key, value);
    lemma_store_distinct(s, key, value);
    lemma_store_lookup(s, key, value, other);
    if t.len() > max {
        lemma_skip_lookup(t, 1, other);
        lemma_lookup_at(t, 0);
    }
}

/// A cache holds one retrievable key for each entry, and a put adds one entry
/// exactly when the key is new and there is room.
pub proof fn lemma_put_count(s: Sessions, key: Seq<u8>, value: Seq<u8>, max: nat)
    requires
        bounded_sessions(s, max),
    ensures
        as_map(after_put(s, key, value, max)).dom().finite(),
        as_map(after_put(s, key, value, max)).dom().len() == (if has_key(s, key) || s.len()
            == max {
            s.len()
        } else {
            s.len() + 1
        }),
{
    lemma_store_distinct(s, key, value);
    lemma_put_keeps_bound(s, key, value, max);
    lemma_as_map_len(after_put(s, key, value, max));
}

} // verus!
