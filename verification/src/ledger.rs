//! The ledger as mathematics: a map from ids to records, and what each
//! operation of the store makes of it.
//!
//! Every operation has a verdict, which says whether it is accepted, and an
//! after-state, which is the ledger unchanged where it is refused. The store's
//! contracts are stated over these functions, and so are the laws in the file
//! beside this one.

use crate::codec::admission;
use crate::proposal::{Choice, ProposalView, RequestView, StoreError};
use vstd::prelude::*;

verus! {

/// The proposals of a ledger, by id.
pub type Ledger = Map<u64, ProposalView>;

/// Every record is stored under its own id.
pub open spec fn keyed(ledger: Ledger) -> bool {
    forall|id: u64| #[trigger] ledger.contains_key(id) ==> ledger[id].id == id
}

/// The record stored under `id`, if there is one.
pub open spec fn lookup(ledger: Ledger, id: u64) -> Option<ProposalView> {
    if ledger.contains_key(id) {
        Some(ledger[id])
    } else {
        None
    }
}

/// The number of proposals in the ledger.
pub open spec fn count(ledger: Ledger) -> nat {
    ledger.dom().len()
}

/// Whether `record` can be written: `Ok`, or the reason why its encoding is
/// not admitted.
pub open spec fn write_verdict(record: ProposalView) -> Result<(), StoreError> {
    match admission(record) {
        Ok(_) => Ok(()),
        Err(e) => Err(e),
    }
}

/// Whether a proposal can be created under `id`.
pub open spec fn create_verdict(ledger: Ledger, id: u64, request: RequestView) -> Result<
    (),
    StoreError,
> {
    if ledger.contains_key(id) {
        Err(StoreError::AlreadyExists)
    } else {
        write_verdict(ProposalView::fresh(id, request))
    }
}

/// The ledger after an attempt to create a proposal under `id`.
pub open spec fn after_create(ledger: Ledger, id: u64, request: RequestView) -> Ledger {
    if create_verdict(ledger, id, request) is Ok {
        ledger.insert(id, ProposalView::fresh(id, request))
    } else {
        ledger
    }
}

/// Whether the proposal under `id` can take the text of `request`.
pub open spec fn edit_verdict(ledger: Ledger, id: u64, request: RequestView) -> Result<
    (),
    StoreError,
> {
    if !ledger.contains_key(id) {
        Err(StoreError::NotFound)
    } else if !ledger[id].open {
        Err(StoreError::Closed)
    } else {
        write_verdict(ledger[id].revised(request))
    }
}

/// The ledger after an attempt to edit the proposal under `id`.
pub open spec fn after_edit(ledger: Ledger, id: u64, request: RequestView) -> Ledger {
    if edit_verdict(ledger, id, request) is Ok {
        ledger.insert(id, ledger[id].revised(request))
    } else {
        ledger
    }
}

/// Whether the proposal under `id` can take a vote for `choice`.
pub open spec fn vote_verdict(ledger: Ledger, id: u64, choice: Choice) -> Result<(), StoreError> {
    if !ledger.contains_key(id) {
        Err(StoreError::NotFound)
    } else if !ledger[id].open {
        Err(StoreError::Closed)
    } else {
        write_verdict(ledger[id].with_vote(choice))
    }
}

/// The ledger after an attempt to vote on the proposal under `id`.
pub open spec fn after_vote(ledger: Ledger, id: u64, choice: Choice) -> Ledger {
    if vote_verdict(ledger, id, choice) is Ok {
        ledger.insert(id, ledger[id].with_vote(choice))
    } else {
        ledger
    }
}

/// Whether the proposal under `id` can be ended.
pub open spec fn end_verdict(ledger: Ledger, id: u64) -> Result<(), StoreError> {
    if ledger.contains_key(id) {
        Ok(())
    } else {
        Err(StoreError::NotFound)
    }
}

/// The ledger after an attempt to end the proposal under `id`: the record is
/// gone, not merely closed.
pub open spec fn after_end(ledger: Ledger, id: u64) -> Ledger {
    ledger.remove(id)
}

/// Whether each vote of `votes`, cast in turn on the proposal under `id`, is
/// accepted.
pub open spec fn all_accepted(ledger: Ledger, id: u64, votes: Seq<Choice>) -> bool
    decreases votes.len(),
{
    if votes.len() == 0 {
        true
    } else {
        &&& all_accepted(ledger, id, votes.drop_last())
        &&& vote_verdict(after_votes(ledger, id, votes.drop_last()), id, votes.last()) is Ok
    }
}

/// The ledger after the votes of `votes` were cast in turn on the proposal
/// under `id`.
pub open spec fn after_votes(ledger: Ledger, id: u64, votes: Seq<Choice>) -> Ledger
    decreases votes.len(),
{
    if votes.len() == 0 {
        ledger
    } else {
        after_vote(after_votes(ledger, id, votes.drop_last()), id, votes.last())
    }
}

/// How many of `votes` are for `choice`.
pub open spec fn occurrences(votes: Seq<Choice>, choice: Choice) -> nat
    decreases votes.len(),
{
    if votes.len() == 0 {
        0
    } else if votes.last() == choice {
        occurrences(votes.drop_last(), choice) + 1
    } else {
        occurrences(votes.drop_last(), choice)
    }
}

} // verus!
