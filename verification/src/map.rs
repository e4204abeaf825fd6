//! The map: one entry per key identity.
//!
//! A [`TypeMap`] is keyed by tag types. The [`Assoc`] trait pairs a tag
//! type with the one value type it may store and gives the tag its key
//! identity, a token that stands for the tag type at run time. The map's
//! model is the mathematical map from key identities to carriers; every
//! operation states its effect on that model.

use crate::carrier::Carried;
use crate::carrier::Carrier;
use std::collections::hash_map::Entry;
use std::collections::HashMap;
use vstd::prelude::*;
use vstd::std_specs::hash::EntrySpecFns;

verus! {

broadcast use vstd::std_specs::hash::group_hash_axioms;

/// Declares that tag type `Self` may store values of type `V`, and gives
/// the tag its key identity.
///
/// Each tag type must be paired with exactly one value type, and distinct
/// tag types must choose distinct key identities; a program that declares
/// two tags with the same identity lets one tag's operations touch the
/// other's entry.
pub trait Assoc<V>: Sized {
    /// The key identity of this tag type.
    spec fn key_id() -> u64;

    /// Returns the key identity of this tag type.
    fn key_id_exec() -> (r: u64)
        ensures
            r == Self::key_id(),
    ;
}

/// The state of the entry for tag `K` in the model `m`: `Some(v)` when the
/// entry under `K`'s key identity holds a carrier wrapping `v: V`, and
/// `None` when there is no such entry or its carrier holds another type.
pub open spec fn entry_state<K: Assoc<V>, V: Carried>(m: Map<u64, Carrier>) -> Option<V> {
    if m.contains_key(K::key_id()) && (exists|v: V| m[K::key_id()] == v.wrap()) {
        Some(choose|v: V| m[K::key_id()] == v.wrap())
    } else {
        None
    }
}

/// A map keyed by tag types.
///
/// Holds at most one value for each key identity, of the type that the
/// tag's [`Assoc`] declaration permits.
pub struct TypeMap {
    data: HashMap<u64, Carrier>,
}

impl View for TypeMap {
    type V = Map<u64, Carrier>;

    closed spec fn view(&self) -> Map<u64, Carrier> {
        self.data@
    }
}

impl TypeMap {
    /// Creates a new, empty map.
    pub fn new() -> (m: TypeMap)
        ensures
            m@ == Map::<u64, Carrier>::empty(),
    {
        TypeMap { data: HashMap::new() }
    }

    /// Inserts a value under the key identity of tag `K`, replacing and
    /// destroying any previous entry there. The tag argument is a marker:
    /// only its type matters. Returns whether an entry existed beforehand.
    pub fn insert<K: Assoc<V>, V: Carried>(&mut self, _key: K, val: V) -> (had: bool)
        ensures
            final(self)@ == old(self)@.insert(K::key_id(), val.wrap()),
            had == old(self)@.contains_key(K::key_id()),
    {
        let id = K::key_id_exec();
        let prior = self.data.insert(id, val.to_carrier());
        prior.is_some()
    }

    /// Looks the entry of tag `K` up and borrows its value. Yields `None`
    /// when no entry lives under `K`'s key identity, or when the entry's
    /// carrier holds a value of another type than `K`'s declared one.
    pub fn find<K: Assoc<V>, V: Carried>(&self, _key: K) -> (r: Option<&V>)
        ensures
            match r {
                Some(v) => entry_state::<K, V>(self@) == Some(*v),
                None => entry_state::<K, V>(self@) is None,
            },
    {
        let id = K::key_id_exec();
        match self.data.get(&id) {
            Some(c) => {
                let r = V::from_ref(c);
                proof {
                    if let Some(v) = r {
                        let w = choose|w: V| self@[K::key_id()] == w.wrap();
                        V::wrap_injective(w, *v);
                    }
                }
                r
            },
            None => None,
        }
    }

    /// Looks the entry of tag `K` up and borrows its value exclusively.
    /// Ownership stays with the map: the model afterwards holds whatever
    /// value the caller leaves behind the borrow. Yields `None`, and leaves
    /// the map unchanged, when no entry lives under `K`'s key identity or
    /// the entry's carrier holds a value of another type.
    pub fn find_mut<K: Assoc<V>, V: Carried>(&mut self, _key: K) -> (r: Option<&mut V>)
        ensures
            match r {
                Some(v) => entry_state::<K, V>(old(self)@) == Some(*v) && final(self)@ == old(
                    self,
                )@.insert(K::key_id(), (*final(v)).wrap()),
                None => entry_state::<K, V>(old(self)@) is None && final(self)@ == old(self)@,
            },
    {
        let ghost id_spec = K::key_id();
        let id = K::key_id_exec();
        match self.data.entry(id) {
            Entry::Occupied(occ) => {
                let c = occ.into_mut();
                match V::from_mut(c) {
                    Some(v) => {
                        proof {
                            let w = choose|w: V| old(self)@[id_spec] == w.wrap();
                            V::wrap_injective(w, *v);
                        }
                        Some(v)
                    },
                    None => {
                        proof {
                            assert(old(self)@.insert(id_spec, old(self)@[id_spec]) =~= old(
                                self,
                            )@);
                        }
                        None
                    },
                }
            },
            Entry::Vacant(_) => {
                proof {
                    assert(old(self)@.remove(id_spec) =~= old(self)@);
                }
                None
            },
        }
    }

    /// Checks whether an entry lives under the key identity of tag `K`.
    pub fn contains<K: Assoc<V>, V: Carried>(&self, _key: K) -> (r: bool)
        ensures
            r == self@.contains_key(K::key_id()),
    {
        let id = K::key_id_exec();
        self.data.contains_key(&id)
    }

    /// Removes the entry under the key identity of tag `K`, destroying its
    /// value. Returns whether an entry was present; removing an absent
    /// entry is a silent no-op.
    pub fn remove<K: Assoc<V>, V: Carried>(&mut self, _key: K) -> (r: bool)
        ensures
            final(self)@ == old(self)@.remove(K::key_id()),
            r == old(self)@.contains_key(K::key_id()),
    {
        let id = K::key_id_exec();
        let prior = self.data.remove(&id);
        prior.is_some()
    }

    /// Returns the number of entries in the map.
    pub fn len(&self) -> (n: usize)
        ensures
            n == self@.len(),
    {
        self.data.len()
    }

    /// Removes and destroys all entries, leaving the map as freshly
    /// created.
    pub fn clear(&mut self)
        ensures
            final(self)@ == Map::<u64, Carrier>::empty(),
    {
        self.data.clear()
    }
}

} // verus!
