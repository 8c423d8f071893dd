//! The durable map under the ledger: a `StableBTreeMap` of the crate
//! `ic_stable_structures` from 64-bit keys to byte strings.
//!
//! Nothing in this file is proved. Each function states what the map's
//! source shows of the one method it calls; the rest of the library is
//! verified against these statements.

use ic_stable_structures::{DefaultMemoryImpl, StableBTreeMap};
use vstd::prelude::*;

verus! {

/// `std::cell::RefCell`, of which the vector-backed `DefaultMemoryImpl` is
/// made. It is only handed through; nothing is stated of it.
#[verifier::external_type_specification]
#[verifier::external_body]
#[verifier::reject_recursive_types(T)]
pub struct ExRefCell<T: ?Sized>(std::cell::RefCell<T>);

/// A `StableBTreeMap<u64, Vec<u8>, DefaultMemoryImpl>`. The map writes every
/// change through to its memory and keeps no copy of the entries elsewhere.
/// It takes the memory to be its own: what is stated below holds as long as
/// nothing else writes there, be it through a clone of the memory or through
/// a second map in it.
///
/// The map's own type cannot be named in a verified signature, because its
/// parameters are bound by traits of its crate; so it is held here, out of
/// the verifier's sight.
#[verifier::external_body]
pub struct DurableMap {
    inner: StableBTreeMap<u64, Vec<u8>, DefaultMemoryImpl>,
}

/// Whether a durable map can be opened in `memory`: nothing was ever written
/// there, or what is there was written by a map from 64-bit keys to byte
/// strings and by nothing else.
pub uninterp spec fn is_loadable(memory: DefaultMemoryImpl) -> bool;

/// The entries that a durable map holds: for each stored key, the bytes
/// stored under it.
pub uninterp spec fn stored_entries(map: DurableMap) -> Map<u64, Seq<u8>>;

/// `entries` has finitely many keys, and `n` of them.
pub open spec fn has_len(entries: Map<u64, Seq<u8>>, n: u64) -> bool {
    entries.dom().finite() && entries.dom().len() == n
}

impl DurableMap {
    /// `StableBTreeMap::init`: loads the map that `memory` holds, or starts
    /// an empty one where nothing was written. What the map then contains
    /// depends on the memory, so nothing is stated of it.
    ///
    /// On another memory the call, or a later one on the map, panics on what
    /// it reads, or starts an empty map over what was there; so such a memory
    /// is left out.
    #[verifier::external_body]
    pub(crate) fn open(memory: DefaultMemoryImpl) -> (map: DurableMap)
        requires
            is_loadable(memory),
    {
        DurableMap { inner: StableBTreeMap::init(memory) }
    }

    /// `StableBTreeMap::into_memory`: gives the memory back. The map has
    /// written every change through, so the memory is one that a map can be
    /// opened in again.
    #[verifier::external_body]
    pub(crate) fn into_memory(self) -> (memory: DefaultMemoryImpl)
        ensures
            is_loadable(memory),
    {
        self.inner.into_memory()
    }

    /// `StableBTreeMap::new`: starts an empty map in `memory`, over whatever
    /// the memory held before.
    #[verifier::external_body]
    pub(crate) fn new(memory: DefaultMemoryImpl) -> (empty: DurableMap)
        ensures
            stored_entries(empty).is_empty(),
    {
        DurableMap { inner: StableBTreeMap::new(memory) }
    }

    /// `StableBTreeMap::len`: the number of entries.
    #[verifier::external_body]
    pub(crate) fn len(&self) -> (n: u64)
        ensures
            has_len(stored_entries(*self), n),
    {
        self.inner.len()
    }

    /// `StableBTreeMap::contains_key`: whether `key` is stored.
    #[verifier::external_body]
    pub(crate) fn contains_key(&self, key: u64) -> (present: bool)
        ensures
            present == stored_entries(*self).contains_key(key),
    {
        self.inner.contains_key(&key)
    }

    /// `StableBTreeMap::get`: a copy of the bytes stored under `key`, or
    /// `None` where the key is not stored.
    #[verifier::external_body]
    pub(crate) fn get(&self, key: u64) -> (value: Option<Vec<u8>>)
        ensures
            match value {
                Some(bytes) => stored_entries(*self).contains_key(key) && stored_entries(
                    *self,
                )[key] == bytes@,
                None => !stored_entries(*self).contains_key(key),
            },
    {
        self.inner.get(&key)
    }

    /// `StableBTreeMap::keys`: every stored key, and nothing else.
    #[verifier::external_body]
    pub(crate) fn keys(&self) -> (keys: Vec<u64>)
        ensures
            keys@.to_set() == stored_entries(*self).dom(),
    {
        self.inner.keys().collect()
    }

    /// `StableBTreeMap::insert`: stores `value` under `key`, in place of what
    /// was stored there, and leaves every other entry as it was.
    ///
    /// The map writes the length of a value in 32 bits, so a longer value is
    /// left out. The call panics where the memory cannot grow any further.
    #[verifier::external_body]
    pub(crate) fn insert(&mut self, key: u64, value: Vec<u8>)
        requires
            value@.len() <= u32::MAX,
        ensures
            stored_entries(*final(self)) == stored_entries(*old(self)).insert(key, value@),
    {
        self.inner.insert(key, value);
    }

    /// `StableBTreeMap::remove`: takes the entry of `key` out, where there is
    /// one, and returns its bytes. Every other entry stays as it was.
    #[verifier::external_body]
    pub(crate) fn remove(&mut self, key: u64) -> (removed: Option<Vec<u8>>)
        ensures
            stored_entries(*final(self)) == stored_entries(*old(self)).remove(key),
            match removed {
                Some(bytes) => stored_entries(*old(self)).contains_key(key) && stored_entries(
                    *old(self),
                )[key] == bytes@,
                None => !stored_entries(*old(self)).contains_key(key),
            },
    {
        self.inner.remove(&key)
    }
}

} // verus!
