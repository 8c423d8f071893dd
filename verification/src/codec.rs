//! How a proposal becomes the bytes that the durable map stores, and how it
//! comes back.
//!
//! The bytes are a Candid message of eight arguments: id, title, description,
//! creator, the three counters and the open flag. The crate `candid` writes
//! and reads the message; this file checks what it hands back.

use crate::proposal::{Proposal, ProposalView, StoreError, Tally};
use vstd::prelude::*;

verus! {

/// The greatest number of bytes that a stored record may take.
pub const MAX_VALUE_SIZE: usize = 5000;

/// The error type of the crate `candid`. The library reports it as
/// `StoreError::StorageFailure` and looks no further into it.
#[verifier::external_type_specification]
#[verifier::external_body]
pub struct ExCandidError(candid::Error);

/// The Candid message that stands for `record`, or `None` where the encoder
/// refuses the record.
pub uninterp spec fn record_encoding(record: ProposalView) -> Option<Seq<u8>>;

/// The record that a Candid message stands for, or `None` where the bytes are
/// no message of eight such arguments.
pub uninterp spec fn record_decoding(bytes: Seq<u8>) -> Option<ProposalView>;

/// `candid::encode_args` on the eight fields of `record`.
///
/// The encoder's answer depends on the fields alone, and the message it
/// writes is one that the decoder reads back as the same eight values: the
/// crate documents its encoders by this round trip.
#[verifier::external_body]
fn encode_fields(record: &Proposal) -> (encoded: Result<Vec<u8>, candid::Error>)
    ensures
        match encoded {
            Ok(bytes) => record_encoding(record@) == Some(bytes@) && record_decoding(bytes@)
                == Some(record@),
            Err(_) => record_encoding(record@) is None,
        },
{
    candid::encode_args(
        (
            record.id,
            &record.title,
            &record.description,
            &record.creator,
            record.tally.approve,
            record.tally.reject,
            record.tally.pass,
            record.open,
        ),
    )
}

/// `candid::decode_args` for the eight fields of a record.
///
/// Where the decoder answers, its answer is the record that the bytes stand
/// for. It may also give up on a well-formed message, when little stack is
/// left to it; so nothing is stated of a refusal.
#[verifier::external_body]
fn decode_fields(bytes: &Vec<u8>) -> (decoded: Result<Proposal, candid::Error>)
    ensures
        decoded matches Ok(record) ==> record_decoding(bytes@) == Some(record@),
{
    let (id, title, description, creator, approve, reject, pass, open) = candid::decode_args::<
        (u64, String, String, String, u64, u64, u64, bool),
    >(bytes)?;
    Ok(Proposal { id, title, description, creator, tally: Tally { approve, reject, pass }, open })
}

/// Whether `record` may be stored, and if not, why: the encoder must accept
/// it, and the message must not be longer than `MAX_VALUE_SIZE`.
pub open spec fn admission(record: ProposalView) -> Result<Seq<u8>, StoreError> {
    match record_encoding(record) {
        None => Err(StoreError::StorageFailure),
        Some(bytes) => bounded(bytes),
    }
}

/// `bytes`, unless there are more of them than `MAX_VALUE_SIZE`.
pub open spec fn bounded(bytes: Seq<u8>) -> Result<Seq<u8>, StoreError> {
    if bytes.len() > MAX_VALUE_SIZE {
        Err(StoreError::RecordTooLarge)
    } else {
        Ok(bytes)
    }
}

/// Whether `bytes`, stored under `key`, are a record of the ledger: at most
/// `MAX_VALUE_SIZE` bytes that stand for a record whose id is `key`.
pub open spec fn is_record_of(key: u64, bytes: Seq<u8>) -> bool {
    &&& bytes.len() <= MAX_VALUE_SIZE
    &&& record_decoding(bytes) matches Some(record)
    &&& record.id == key
}

/// Hands `bytes` back where they fit in a stored value, and refuses them
/// where they do not.
pub fn check_size(bytes: Vec<u8>) -> (result: Result<Vec<u8>, StoreError>)
    ensures
        match result {
            Ok(kept) => bounded(bytes@) == Ok::<Seq<u8>, StoreError>(kept@),
            Err(e) => bounded(bytes@) == Err::<Seq<u8>, StoreError>(e),
        },
{
    if bytes.len() > MAX_VALUE_SIZE {
        Err(StoreError::RecordTooLarge)
    } else {
        Ok(bytes)
    }
}

/// Hands `record` back where it belongs under `key`, and reports a storage
/// failure where its id is another.
pub fn check_key(key: u64, record: Proposal) -> (result: Result<Proposal, StoreError>)
    ensures
        match result {
            Ok(kept) => kept == record && record.id == key,
            Err(e) => e == StoreError::StorageFailure && record.id != key,
        },
{
    if record.id == key {
        Ok(record)
    } else {
        Err(StoreError::StorageFailure)
    }
}

/// Encodes `record` for the durable map.
pub fn encode(record: &Proposal) -> (result: Result<Vec<u8>, StoreError>)
    ensures
        match result {
            Ok(bytes) => admission(record@) == Ok::<Seq<u8>, StoreError>(bytes@)
                && record_decoding(bytes@) == Some(record@),
            Err(e) => admission(record@) == Err::<Seq<u8>, StoreError>(e),
        },
{
    match encode_fields(record) {
        Err(_) => Err(StoreError::StorageFailure),
        Ok(bytes) => check_size(bytes),
    }
}

/// Decodes the bytes stored under `key`.
///
/// Bytes that are no record of `key` are always refused. Bytes that are one
/// give that record, unless the decoder gives up.
pub fn decode(key: u64, bytes: &Vec<u8>) -> (result: Result<Proposal, StoreError>)
    ensures
        match result {
            Ok(record) => is_record_of(key, bytes@) && record_decoding(bytes@) == Some(record@),
            Err(e) => e == StoreError::StorageFailure,
        },
{
    if bytes.len() > MAX_VALUE_SIZE {
        return Err(StoreError::StorageFailure);
    }
    match decode_fields(bytes) {
        Err(_) => Err(StoreError::StorageFailure),
        Ok(record) => check_key(key, record),
    }
}

} // verus!
