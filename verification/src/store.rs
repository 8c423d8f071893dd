//! The store: the ledger's operations, carried out on the durable map.
//!
//! The store keeps no copy of the proposals. Every operation reads the bytes
//! of the record it needs from the map, decides, and writes the new bytes
//! back before it returns.

use crate::codec::{decode, encode, is_record_of, record_decoding};
use crate::durable::{is_loadable, stored_entries, DurableMap};
use crate::ledger::{
    after_create, after_edit, after_end, after_vote, create_verdict, edit_verdict, end_verdict,
    keyed, vote_verdict, write_verdict, Ledger,
};
use crate::proposal::{Choice, CreateProposalRequest, Proposal, ProposalView, StoreError};
use ic_stable_structures::DefaultMemoryImpl;
use vstd::prelude::*;

verus! {

/// A ledger of proposals in a durable map.
pub struct ProposalStore {
    map: DurableMap,
}

/// Every entry holds a record of the key it is stored under.
spec fn all_records(entries: Map<u64, Seq<u8>>) -> bool {
    forall|key: u64| #[trigger] entries.contains_key(key) ==> is_record_of(key, entries[key])
}

/// The ledger that the entries stand for.
spec fn decoded(entries: Map<u64, Seq<u8>>) -> Ledger {
    Map::new(
        |key: u64| entries.contains_key(key),
        |key: u64| record_decoding(entries[key]).unwrap(),
    )
}

/// Writing the bytes of `record` under its id stores `record` in the ledger.
proof fn lemma_decoded_insert(entries: Map<u64, Seq<u8>>, bytes: Seq<u8>, record: ProposalView)
    requires
        record_decoding(bytes) == Some(record),
    ensures
        decoded(entries.insert(record.id, bytes)) == decoded(entries).insert(record.id, record),
{
    assert(decoded(entries.insert(record.id, bytes)) =~= decoded(entries).insert(
        record.id,
        record,
    ));
}

/// Taking the entry of `key` out takes the record of `key` out of the ledger.
proof fn lemma_decoded_remove(entries: Map<u64, Seq<u8>>, key: u64)
    ensures
        decoded(entries.remove(key)) == decoded(entries).remove(key),
{
    assert(decoded(entries.remove(key)) =~= decoded(entries).remove(key));
}

impl View for ProposalStore {
    type V = Ledger;

    /// The ledger that the store holds.
    closed spec fn view(&self) -> Ledger {
        decoded(stored_entries(self.map))
    }
}

impl ProposalStore {
    /// The bytes that the durable map holds, by key.
    pub closed spec fn stored(&self) -> Map<u64, Seq<u8>> {
        stored_entries(self.map)
    }

    /// The store's invariant: the map holds finitely many entries, and each
    /// of them is a record of its key. `new`, `open` and `adopt` establish
    /// it, and every operation keeps it.
    pub closed spec fn wf(&self) -> bool {
        &&& stored_entries(self.map).dom().finite()
        &&& all_records(stored_entries(self.map))
    }

    /// What the invariant means for the ledger. A well-formed store holds
    /// finitely many proposals, each under its own id, and each as bytes that
    /// stand for it and are within the bound on a stored value.
    pub proof fn law_well_formed_store(&self)
        requires
            self.wf(),
        ensures
            self@.dom().finite(),
            keyed(self@),
            self.stored().dom() == self@.dom(),
            forall|id: u64| #[trigger]
                self@.contains_key(id) ==> is_record_of(id, self.stored()[id]) && record_decoding(
                    self.stored()[id],
                ) == Some(self@[id]),
    {
        assert(self@.dom() =~= stored_entries(self.map).dom());
        assert forall|id: u64| #[trigger] self@.contains_key(id) implies is_record_of(
            id,
            self.stored()[id],
        ) && record_decoding(self.stored()[id]) == Some(self@[id]) by {
            assert(stored_entries(self.map).contains_key(id));
        }
    }

    /// Starts an empty store in `memory`. What the memory held before is
    /// lost.
    ///
    /// The memory must be the store's alone from here on. A clone of it, or a
    /// second store in it, writes over what this store wrote, and nothing
    /// stated of the store holds any longer.
    pub fn new(memory: DefaultMemoryImpl) -> (store: ProposalStore)
        ensures
            store.wf(),
            store@ == Map::<u64, ProposalView>::empty(),
    {
        ProposalStore { map: DurableMap::new(memory) }
    }

    /// Opens the store that `memory` holds, or an empty one where nothing was
    /// written there, and checks every entry before it trusts any: see
    /// `adopt`.
    ///
    /// The memory must be one that was never written or one that a store
    /// wrote, and must be the store's alone from here on. On another memory
    /// the durable map panics, or starts an empty map over what was there.
    pub fn open(memory: DefaultMemoryImpl) -> (result: Result<ProposalStore, StoreError>)
        requires
            is_loadable(memory),
        ensures
            match result {
                Ok(store) => store.wf(),
                Err(e) => e == StoreError::StorageFailure,
            },
    {
        ProposalStore::adopt(DurableMap::open(memory))
    }

    /// Makes a store of an opened map, with every entry as it is, after it
    /// has checked each of them. An entry that is no record of its key makes
    /// the whole map a storage failure, and so does a map that counts its
    /// entries otherwise than it lists them. A map without entries is always
    /// adopted. The check reads every stored proposal once.
    pub fn adopt(map: DurableMap) -> (result: Result<ProposalStore, StoreError>)
        ensures
            match result {
                Ok(store) => {
                    &&& store.wf()
                    &&& store.stored() == stored_entries(map)
                    &&& forall|key: u64| #[trigger]
                        stored_entries(map).contains_key(key) ==> is_record_of(
                            key,
                            stored_entries(map)[key],
                        )
                },
                Err(e) => e == StoreError::StorageFailure,
            },
            stored_entries(map).is_empty() ==> result is Ok,
    {
        let keys = map.keys();
        let count = map.len();
        proof {
            if stored_entries(map).is_empty() && keys.len() > 0 {
                assert(keys@.to_set().contains(keys@[0]));
            }
        }
        if count != keys.len() as u64 {
            return Err(StoreError::StorageFailure);
        }
        let mut checked: usize = 0;
        while checked < keys.len()
            invariant
                checked <= keys.len(),
                keys@.to_set() == stored_entries(map).dom(),
                forall|i: int|
                    0 <= i < checked ==> is_record_of(
                        #[trigger] keys[i],
                        stored_entries(map)[keys[i]],
                    ),
            decreases keys.len() - checked,
        {
            let key = keys[checked];
            match map.get(key) {
                None => {
                    return Err(StoreError::StorageFailure);
                },
                Some(bytes) => {
                    if decode(key, &bytes).is_err() {
                        return Err(StoreError::StorageFailure);
                    }
                },
            }
            checked += 1;
        }
        proof {
            vstd::seq_lib::seq_to_set_is_finite(keys@);
            assert forall|key: u64| #[trigger]
                stored_entries(map).contains_key(key) implies is_record_of(
                key,
                stored_entries(map)[key],
            ) by {
                assert(keys@.to_set().contains(key));
            }
        }
        Ok(ProposalStore { map })
    }

    /// Gives the store up and hands its memory back. Every change has been
    /// written through, so the memory can be opened again.
    pub fn into_memory(self) -> (memory: DefaultMemoryImpl)
        ensures
            is_loadable(memory),
    {
        self.map.into_memory()
    }

    /// Looks a proposal up. Nothing is changed.
    ///
    /// An id that is not stored gives `Ok(None)`. A stored one gives its
    /// record, whose id is the key, or a storage failure where the decoder
    /// gives up.
    pub fn get_proposal(&self, key: u64) -> (result: Result<Option<Proposal>, StoreError>)
        ensures
            match result {
                Ok(Some(record)) => {
                    &&& self@.contains_key(key)
                    &&& record@ == self@[key]
                    &&& record.id == key
                },
                Ok(None) => !self@.contains_key(key),
                Err(e) => e == StoreError::StorageFailure && self@.contains_key(key),
            },
    {
        match self.map.get(key) {
            None => Ok(None),
            Some(bytes) => match decode(key, &bytes) {
                Ok(record) => Ok(Some(record)),
                Err(e) => Err(e),
            },
        }
    }

    /// The number of proposals that are stored now.
    pub fn get_proposal_count(&self) -> (n: u64)
        ensures
            self@.dom().finite(),
            n == self@.dom().len(),
    {
        proof {
            assert(self@.dom() =~= stored_entries(self.map).dom());
        }
        self.map.len()
    }

    /// Creates a proposal under `key`: open, with no votes. An id that is
    /// taken is refused, and so is a record too large to store; the ledger
    /// then stays as it was.
    pub fn create_proposal(&mut self, key: u64, request: CreateProposalRequest) -> (result: Result<
        Proposal,
        StoreError,
    >)
        ensures
            old(self).wf() ==> final(self).wf(),
            final(self)@ == after_create(old(self)@, key, request@),
            match result {
                Ok(record) => create_verdict(old(self)@, key, request@) is Ok && record@
                    == ProposalView::fresh(key, request@),
                Err(e) => create_verdict(old(self)@, key, request@) == Err::<(), StoreError>(e),
            },
    {
        if self.map.contains_key(key) {
            return Err(StoreError::AlreadyExists);
        }
        let record = Proposal::new(key, request);
        match encode(&record) {
            Err(e) => Err(e),
            Ok(bytes) => {
                proof {
                    lemma_decoded_insert(stored_entries(self.map), bytes@, record@);
                }
                self.map.insert(key, bytes);
                Ok(record)
            },
        }
    }

    /// Reads the record of `key` for an operation that will change it.
    fn fetch(&self, key: u64) -> (result: Result<Proposal, StoreError>)
        ensures
            match result {
                Ok(record) => self@.contains_key(key) && record@ == self@[key] && record.id == key,
                Err(e) => if self@.contains_key(key) {
                    e == StoreError::StorageFailure
                } else {
                    e == StoreError::NotFound
                },
            },
    {
        match self.map.get(key) {
            None => Err(StoreError::NotFound),
            Some(bytes) => decode(key, &bytes),
        }
    }

    /// Writes `record` in place of the record stored under its id.
    fn replace(&mut self, record: &Proposal) -> (result: Result<(), StoreError>)
        ensures
            old(self).wf() ==> final(self).wf(),
            match result {
                Ok(()) => write_verdict(record@) is Ok && final(self)@ == old(self)@.insert(
                    record.id,
                    record@,
                ),
                Err(e) => write_verdict(record@) == Err::<(), StoreError>(e) && final(self)@
                    == old(self)@,
            },
    {
        match encode(record) {
            Err(e) => Err(e),
            Ok(bytes) => {
                proof {
                    lemma_decoded_insert(stored_entries(self.map), bytes@, record@);
                }
                self.map.insert(record.id, bytes);
                Ok(())
            },
        }
    }

    /// Replaces title, description and creator of the proposal under `key`.
    /// Id, tally and the open flag stay as they are.
    ///
    /// An id that is not stored is always refused as not found. On a stored
    /// one the outcome is the ledger's verdict, or a storage failure where the
    /// decoder gives up; whenever the edit is refused the ledger stays as it
    /// was.
    pub fn edit_proposal(&mut self, key: u64, request: CreateProposalRequest) -> (result: Result<
        Proposal,
        StoreError,
    >)
        ensures
            old(self).wf() ==> final(self).wf(),
            match result {
                Ok(record) => {
                    &&& edit_verdict(old(self)@, key, request@) is Ok
                    &&& final(self)@ == after_edit(old(self)@, key, request@)
                    &&& record@ == old(self)@[key].revised(request@)
                },
                Err(e) => {
                    &&& final(self)@ == old(self)@
                    &&& edit_verdict(old(self)@, key, request@) == Err::<(), StoreError>(e) || (e
                        == StoreError::StorageFailure && old(self)@.contains_key(key))
                },
            },
    {
        let current = match self.fetch(key) {
            Ok(record) => record,
            Err(e) => {
                return Err(e);
            },
        };
        let revised = match current.revise(request) {
            Ok(record) => record,
            Err(e) => {
                return Err(e);
            },
        };
        match self.replace(&revised) {
            Ok(()) => Ok(revised),
            Err(e) => Err(e),
        }
    }

    /// Ends the proposal under `key`: its record is removed, and with it the
    /// tally. An id that is not stored is refused.
    pub fn end_proposal(&mut self, key: u64) -> (result: Result<(), StoreError>)
        ensures
            old(self).wf() ==> final(self).wf(),
            result == end_verdict(old(self)@, key),
            final(self)@ == after_end(old(self)@, key),
    {
        proof {
            lemma_decoded_remove(stored_entries(self.map), key);
        }
        match self.map.remove(key) {
            Some(_) => Ok(()),
            None => Err(StoreError::NotFound),
        }
    }

    /// Counts one vote for `choice` on the proposal under `key`. The record is
    /// read, changed and written back before the call returns, so no vote is
    /// lost between two calls.
    ///
    /// An id that is not stored is always refused as not found. On a stored
    /// one the outcome is the ledger's verdict, or a storage failure where the
    /// decoder gives up; whenever the vote is refused the ledger stays as it
    /// was.
    pub fn vote(&mut self, key: u64, choice: Choice) -> (result: Result<(), StoreError>)
        ensures
            old(self).wf() ==> final(self).wf(),
            match result {
                Ok(()) => {
                    &&& vote_verdict(old(self)@, key, choice) is Ok
                    &&& final(self)@ == after_vote(old(self)@, key, choice)
                },
                Err(e) => {
                    &&& final(self)@ == old(self)@
                    &&& vote_verdict(old(self)@, key, choice) == Err::<(), StoreError>(e) || (e
                        == StoreError::StorageFailure && old(self)@.contains_key(key))
                },
            },
    {
        let current = match self.fetch(key) {
            Ok(record) => record,
            Err(e) => {
                return Err(e);
            },
        };
        let voted = match current.cast_vote(choice) {
            Ok(record) => record,
            Err(e) => {
                return Err(e);
            },
        };
        self.replace(&voted)
    }
}

} // verus!
