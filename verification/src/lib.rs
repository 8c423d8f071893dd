//! A ledger of proposals and their votes, kept in a durable map.
//!
//! `proposal` holds the records and the rules that change one record,
//! `ledger` the mathematics of the whole ledger, `laws` what is proved of it,
//! `codec` and `durable` the two outside crates the ledger rests on, and
//! `store` the operations themselves.

pub mod codec;
pub mod durable;
pub mod laws;
pub mod ledger;
pub mod proposal;
pub mod store;

pub use crate::proposal::{Choice, CreateProposalRequest, Proposal, StoreError, Tally};
pub use crate::store::ProposalStore;
