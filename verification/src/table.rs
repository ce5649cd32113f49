//! Hash tables over keys that are one-to-one with integers.

use std::collections::{HashMap, HashSet};
use std::marker::PhantomData;

use vstd::prelude::*;

verus! {

broadcast use vstd::std_specs::hash::group_hash_axioms;

/// A value that an integer identifies.
pub trait Key: Sized {
    /// The integer that identifies the value.
    spec fn spec_key(self) -> u64;

    /// No two values have the same integer.
    proof fn lemma_key_injective(a: Self, b: Self)
        requires
            a.spec_key() == b.spec_key(),
        ensures
            a == b,
    ;

    /// Returns the integer that identifies the value.
    fn key(&self) -> (key: u64)
        ensures
            key == self.spec_key(),
    ;
}

/// A map from `K` to `V`.
#[verifier::reject_recursive_types(K)]
pub struct Table<K: Key, V> {
    entries: HashMap<u64, V>,
    keys: PhantomData<K>,
}

impl<K: Key, V> View for Table<K, V> {
    type V = Map<K, V>;

    closed spec fn view(&self) -> Map<K, V> {
        Map::new(
            |key: K| self.entries@.contains_key(key.spec_key()),
            |key: K| self.entries@[key.spec_key()],
        )
    }
}

impl<K: Key, V> Table<K, V> {
    /// Creates a table without entries.
    pub fn new() -> (table: Self)
        ensures
            table@ == Map::<K, V>::empty(),
    {
        let table = Table { entries: HashMap::new(), keys: PhantomData };
        assert(table@ =~= Map::<K, V>::empty());
        table
    }

    /// Returns the value stored under the key.
    pub fn get(&self, key: K) -> (value: Option<&V>)
        ensures
            value == (if self@.contains_key(key) {
                Some(&self@[key])
            } else {
                None
            }),
    {
        self.entries.get(&key.key())
    }

    /// Stores a value under the key, in place of the one that was there.
    pub fn insert(&mut self, key: K, value: V)
        ensures
            final(self)@ == old(self)@.insert(key, value),
    {
        self.entries.insert(key.key(), value);
        proof {
            assert forall|other: K| other.spec_key() == key.spec_key() implies other == key by {
                K::lemma_key_injective(other, key);
            }
            assert(self@ =~= old(self)@.insert(key, value));
        }
    }

    /// Takes out the value stored under the key.
    pub fn remove(&mut self, key: K) -> (value: Option<V>)
        ensures
            value == (if old(self)@.contains_key(key) {
                Some(old(self)@[key])
            } else {
                None
            }),
            final(self)@ == old(self)@.remove(key),
    {
        let value = self.entries.remove(&key.key());
        proof {
            assert forall|other: K| other.spec_key() == key.spec_key() implies other == key by {
                K::lemma_key_injective(other, key);
            }
            assert(self@ =~= old(self)@.remove(key));
        }
        value
    }
}

/// A set of `K`.
#[verifier::reject_recursive_types(K)]
pub struct KeySet<K: Key> {
    members: HashSet<u64>,
    keys: PhantomData<K>,
}

impl<K: Key> View for KeySet<K> {
    type V = Set<K>;

    closed spec fn view(&self) -> Set<K> {
        Set::new(|key: K| self.members@.contains(key.spec_key()))
    }
}

impl<K: Key> KeySet<K> {
    /// Creates a set without members.
    pub fn new() -> (set: Self)
        ensures
            set@ == Set::<K>::empty(),
    {
        let set = KeySet { members: HashSet::new(), keys: PhantomData };
        assert(set@ =~= Set::<K>::empty());
        set
    }

    /// Adds a member, and returns whether it was not there before.
    pub fn insert(&mut self, key: K) -> (added: bool)
        ensures
            added == !old(self)@.contains(key),
            final(self)@ == old(self)@.insert(key),
    {
        let added = self.members.insert(key.key());
        proof {
            assert forall|other: K| other.spec_key() == key.spec_key() implies other == key by {
                K::lemma_key_injective(other, key);
            }
            assert(self@ =~= old(self)@.insert(key));
        }
        added
    }

    /// Removes a member.
    pub fn remove(&mut self, key: K)
        ensures
            final(self)@ == old(self)@.remove(key),
    {
        self.members.remove(&key.key());
        proof {
            assert forall|other: K| other.spec_key() == key.spec_key() implies other == key by {
                K::lemma_key_injective(other, key);
            }
            assert(self@ =~= old(self)@.remove(key));
        }
    }
}

} // verus!
