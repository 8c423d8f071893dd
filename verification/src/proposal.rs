//! The records of the ledger: proposals, their tallies, and the rules that
//! change a single record.

use vstd::prelude::*;

verus! {

/// One of the answers a vote may give.
#[derive(Clone, Copy, Debug, PartialEq, Eq, Structural)]
pub enum Choice {
    Approve,
    Reject,
    Pass,
}

/// Why an operation on the ledger was refused.
#[derive(Clone, Copy, Debug, PartialEq, Eq, Structural)]
pub enum StoreError {
    /// No proposal is stored under the given id.
    NotFound,
    /// A proposal is already stored under the given id.
    AlreadyExists,
    /// The proposal no longer accepts edits or votes.
    Closed,
    /// The encoded record would be longer than the store admits.
    RecordTooLarge,
    /// The durable map or the codec could not do its part.
    StorageFailure,
}

/// The vote counts of one proposal: one counter for each choice, so that no
/// choice can be missing and none can be added.
#[derive(Clone, Copy, Debug, PartialEq, Eq, Structural)]
pub struct Tally {
    pub approve: u64,
    pub reject: u64,
    pub pass: u64,
}

impl Tally {
    /// The tally of a proposal nobody has voted on.
    pub open spec fn empty() -> Tally {
        Tally { approve: 0, reject: 0, pass: 0 }
    }

    /// The number of votes counted for `choice`.
    pub open spec fn count(self, choice: Choice) -> u64 {
        match choice {
            Choice::Approve => self.approve,
            Choice::Reject => self.reject,
            Choice::Pass => self.pass,
        }
    }

    /// The tally as a mapping: every choice has a count, and nothing else
    /// has one.
    pub open spec fn as_map(self) -> Map<Choice, u64> {
        Map::new(|choice: Choice| true, |choice: Choice| self.count(choice))
    }

    /// The number of votes counted over all choices.
    pub open spec fn total(self) -> nat {
        (self.approve + self.reject + self.pass) as nat
    }

    /// This tally after one more vote for `choice`. A counter that has reached
    /// `u64::MAX` stays there.
    pub open spec fn with_vote(self, choice: Choice) -> Tally {
        match choice {
            Choice::Approve => Tally { approve: saturating_next(self.approve), ..self },
            Choice::Reject => Tally { reject: saturating_next(self.reject), ..self },
            Choice::Pass => Tally { pass: saturating_next(self.pass), ..self },
        }
    }

    /// A tally with every counter at zero.
    pub fn zero() -> (tally: Tally)
        ensures
            tally == Tally::empty(),
    {
        Tally { approve: 0, reject: 0, pass: 0 }
    }

    /// Reads the counter of `choice`.
    pub fn get(&self, choice: Choice) -> (n: u64)
        ensures
            n == self.count(choice),
    {
        match choice {
            Choice::Approve => self.approve,
            Choice::Reject => self.reject,
            Choice::Pass => self.pass,
        }
    }

    /// Adds the three counters. The sum of three `u64` always fits in `u128`.
    pub fn sum(&self) -> (n: u128)
        ensures
            n == self.total(),
    {
        self.approve as u128 + self.reject as u128 + self.pass as u128
    }

    /// Counts one more vote for `choice` and leaves the other counters alone.
    pub fn record(&mut self, choice: Choice)
        ensures
            *final(self) == old(self).with_vote(choice),
    {
        match choice {
            Choice::Approve => {
                self.approve = next_count(self.approve);
            },
            Choice::Reject => {
                self.reject = next_count(self.reject);
            },
            Choice::Pass => {
                self.pass = next_count(self.pass);
            },
        }
    }
}

/// `n + 1`, or `u64::MAX` where that would not fit.
pub open spec fn saturating_next(n: u64) -> u64 {
    if n < u64::MAX {
        (n + 1) as u64
    } else {
        u64::MAX
    }
}

/// Computes `saturating_next`.
pub fn next_count(n: u64) -> (m: u64)
    ensures
        m == saturating_next(n),
{
    if n < u64::MAX {
        n + 1
    } else {
        n
    }
}

/// What a caller supplies to create a proposal or to edit one.
#[derive(Debug, PartialEq, Eq)]
pub struct CreateProposalRequest {
    pub title: String,
    pub description: String,
    pub creator: String,
}

/// The mathematical content of a `CreateProposalRequest`.
pub struct RequestView {
    pub title: Seq<char>,
    pub description: Seq<char>,
    pub creator: Seq<char>,
}

impl View for CreateProposalRequest {
    type V = RequestView;

    open spec fn view(&self) -> RequestView {
        RequestView { title: self.title@, description: self.description@, creator: self.creator@ }
    }
}

impl Clone for CreateProposalRequest {
    fn clone(&self) -> (copy: CreateProposalRequest)
        ensures
            copy == *self,
    {
        CreateProposalRequest {
            title: self.title.clone(),
            description: self.description.clone(),
            creator: self.creator.clone(),
        }
    }
}

/// A stored proposal.
#[derive(Debug, PartialEq, Eq)]
pub struct Proposal {
    /// The key under which the proposal is stored. It never changes.
    pub id: u64,
    pub title: String,
    pub description: String,
    /// The author, as an opaque identity string.
    pub creator: String,
    pub tally: Tally,
    /// Whether the proposal still accepts edits and votes.
    pub open: bool,
}

/// The mathematical content of a `Proposal`.
pub struct ProposalView {
    pub id: u64,
    pub title: Seq<char>,
    pub description: Seq<char>,
    pub creator: Seq<char>,
    pub tally: Tally,
    pub open: bool,
}

impl View for Proposal {
    type V = ProposalView;

    open spec fn view(&self) -> ProposalView {
        ProposalView {
            id: self.id,
            title: self.title@,
            description: self.description@,
            creator: self.creator@,
            tally: self.tally,
            open: self.open,
        }
    }
}

impl Clone for Proposal {
    fn clone(&self) -> (copy: Proposal)
        ensures
            copy == *self,
    {
        Proposal {
            id: self.id,
            title: self.title.clone(),
            description: self.description.clone(),
            creator: self.creator.clone(),
            tally: self.tally,
            open: self.open,
        }
    }
}

impl ProposalView {
    /// The record that creation builds: the request's text under `id`, no
    /// votes, open.
    pub open spec fn fresh(id: u64, request: RequestView) -> ProposalView {
        ProposalView {
            id,
            title: request.title,
            description: request.description,
            creator: request.creator,
            tally: Tally::empty(),
            open: true,
        }
    }

    /// This record with its text replaced by the request's. Id, tally and the
    /// open flag stay.
    pub open spec fn revised(self, request: RequestView) -> ProposalView {
        ProposalView {
            title: request.title,
            description: request.description,
            creator: request.creator,
            ..self
        }
    }

    /// This record with one more vote for `choice`. Everything but the tally
    /// stays.
    pub open spec fn with_vote(self, choice: Choice) -> ProposalView {
        ProposalView { tally: self.tally.with_vote(choice), ..self }
    }
}

impl Proposal {
    /// Builds the record of a new proposal.
    pub fn new(id: u64, request: CreateProposalRequest) -> (proposal: Proposal)
        ensures
            proposal@ == ProposalView::fresh(id, request@),
    {
        Proposal {
            id,
            title: request.title,
            description: request.description,
            creator: request.creator,
            tally: Tally::zero(),
            open: true,
        }
    }

    /// Replaces title, description and creator, unless the proposal is closed.
    pub fn revise(self, request: CreateProposalRequest) -> (result: Result<Proposal, StoreError>)
        ensures
            match result {
                Ok(p) => self.open && p@ == self@.revised(request@),
                Err(e) => !self.open && e == StoreError::Closed,
            },
    {
        if !self.open {
            return Err(StoreError::Closed);
        }
        Ok(
            Proposal {
                id: self.id,
                title: request.title,
                description: request.description,
                creator: request.creator,
                tally: self.tally,
                open: self.open,
            },
        )
    }

    /// Counts one vote for `choice`, unless the proposal is closed.
    pub fn cast_vote(self, choice: Choice) -> (result: Result<Proposal, StoreError>)
        ensures
            match result {
                Ok(p) => self.open && p@ == self@.with_vote(choice),
                Err(e) => !self.open && e == StoreError::Closed,
            },
    {
        if !self.open {
            return Err(StoreError::Closed);
        }
        let mut voted = self;
        voted.tally.record(choice);
        Ok(voted)
    }
}

} // verus!
