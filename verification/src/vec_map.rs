//! A map kept in a vector, for keys that are byte strings or texts.
//!
//! The entries stand in the order in which their keys first came, so that
//! the oldest can be told and dropped. What the vector means as a map, and the
//! laws of its operations, are those of `assoc`.

use vstd::prelude::*;
use crate::assoc::{distinct_keys, has_key, lemma_lookup_at, lemma_store_distinct, lookup, store};
use crate::compare::{same_bytes, same_text};

verus! {

/// Keys that are asked for in a borrowed form and compared by what they hold.
pub trait MapKey: View + Sized {
    /// The form in which a key is asked for.
    type Asked: ?Sized;

    /// What a key in the asked form stands for.
    spec fn asked_view(asked: &Self::Asked) -> Self::V;

    /// This key in the form in which keys are asked for.
    fn as_asked(&self) -> (asked: &Self::Asked)
        ensures
            Self::asked_view(asked) == self@,
    ;

    /// Whether this key is the one asked for.
    fn same_as(&self, asked: &Self::Asked) -> (same: bool)
        ensures
            same == (self@ == Self::asked_view(asked)),
    ;
}

impl MapKey for Vec<u8> {
    type Asked = [u8];

    open spec fn asked_view(asked: &[u8]) -> Seq<u8> {
        asked@
    }

    fn as_asked(&self) -> (asked: &[u8]) {
        self.as_slice()
    }

    fn same_as(&self, asked: &[u8]) -> (same: bool) {
        same_bytes(self.as_slice(), asked)
    }
}

impl MapKey for String {
    type Asked = str;

    open spec fn asked_view(asked: &str) -> Seq<char> {
        asked@
    }

    fn as_asked(&self) -> (asked: &str) {
        self.as_str()
    }

    fn same_as(&self, asked: &str) -> (same: bool) {
        same_text(self.as_str(), asked)
    }
}

/// A map from keys to values, kept as a vector of entries, oldest first.
pub struct VecMap<K: MapKey, V: View> {
    entries: Vec<(K, V)>,
}

impl<K: MapKey, V: View> View for VecMap<K, V> {
    type V = Seq<(K::V, V::V)>;

    closed spec fn view(&self) -> Seq<(K::V, V::V)> {
        Seq::new(self.entries@.len(), |i: int| (self.entries@[i].0@, self.entries@[i].1@))
    }
}

impl<K: MapKey, V: View> VecMap<K, V> {
    /// A map without entries.
    pub fn new() -> (empty: VecMap<K, V>)
        ensures
            empty@ == Seq::<(K::V, V::V)>::empty(),
    {
        VecMap { entries: Vec::new() }
    }

    /// The number of entries.
    pub fn len(&self) -> (n: usize)
        ensures
            n == self@.len(),
    {
        self.entries.len()
    }

    /// The index of the entry with the key asked for, if there is one.
    fn find(&self, asked: &K::Asked) -> (at: Option<usize>)
        ensures
            match at {
                Some(i) => i < self@.len() && self@[i as int].0 == K::asked_view(asked),
                None => !has_key(self@, K::asked_view(asked)),
            },
    {
        let mut i: usize = 0;
        while i < self.entries.len()
            invariant
                i <= self.entries@.len(),
                forall|j: int| 0 <= j < i ==> (#[trigger] self@[j]).0 != K::asked_view(asked),
            decreases self.entries@.len() - i,
        {
            if self.entries[i].0.same_as(asked) {
                return Some(i);
            }
            i += 1;
        }
        None
    }

    /// The value held for the key asked for.
    pub fn get(&self, asked: &K::Asked) -> (found: Option<&V>)
        requires
            distinct_keys(self@),
        ensures
            (match found {
                Some(value) => Some(value@),
                None => None,
            }) == lookup(self@, K::asked_view(asked)),
    {
        match self.find(asked) {
            Some(i) => {
                proof {
                    lemma_lookup_at(self@, i as int);
                }
                Some(&self.entries[i].1)
            },
            None => None,
        }
    }

    /// Puts `value` under `key`: in the place of the entry that had the key,
    /// or as the newest entry if there was none.
    pub fn insert(&mut self, key: K, value: V)
        requires
            distinct_keys(old(self)@),
        ensures
            final(self)@ == store(old(self)@, key@, value@),
            distinct_keys(final(self)@),
    {
        proof {
            lemma_store_distinct(self@, key@, value@);
        }
        match self.find(key.as_asked()) {
            Some(i) => {
                proof {
                    lemma_lookup_at(self@, i as int);
                }
                self.entries[i] = (key, value);
            },
            None => {
                self.entries.push((key, value));
            },
        }
        assert(self@ =~= store(old(self)@, key@, value@));
    }

    /// Drops the oldest entry, if there is one.
    pub fn remove_oldest(&mut self)
        ensures
            final(self)@ == (if old(self)@.len() == 0 {
                old(self)@
            } else {
                old(self)@.skip(1)
            }),
            distinct_keys(old(self)@) ==> distinct_keys(final(self)@),
    {
        if self.entries.len() > 0 {
            self.entries.remove(0);
            assert(self@ =~= old(self)@.skip(1));
        }
    }
}

} // verus!
