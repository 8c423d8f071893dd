//! What holds of every ledger, whatever was done to it: the laws that relate
//! one operation to the next. Each is stated over the functions of the ledger
//! that the store's contracts use, and proved.

use crate::ledger::{
    after_create, after_edit, after_end, after_vote, after_votes, all_accepted, count,
    create_verdict, edit_verdict, end_verdict, keyed, lookup, occurrences, vote_verdict, Ledger,
};
use crate::proposal::{Choice, ProposalView, RequestView, StoreError, Tally};
use vstd::prelude::*;

verus! {

/// `count + more`, or `u64::MAX` where that would not fit.
pub open spec fn capped_sum(count: u64, more: nat) -> u64 {
    if count + more > u64::MAX {
        u64::MAX
    } else {
        (count + more) as u64
    }
}

/// A tally has exactly one count for each of the three choices: none is
/// missing, and there is no fourth.
pub proof fn law_tally_covers_every_choice(tally: Tally)
    ensures
        tally.as_map().dom() == set![Choice::Approve, Choice::Reject, Choice::Pass],
        tally.as_map().dom().finite(),
        tally.as_map().dom().len() == 3,
        forall|choice: Choice| #[trigger] tally.as_map()[choice] == tally.count(choice),
{
    assert(tally.as_map().dom() =~= set![Choice::Approve, Choice::Reject, Choice::Pass]);
}

/// An id can be created once. After one creation has succeeded, a second
/// under the same id is refused as already existing, whatever it asks for, and
/// the record of the first stays as it was.
pub proof fn law_create_is_unique(ledger: Ledger, id: u64, first: RequestView, second: RequestView)
    requires
        create_verdict(ledger, id, first) is Ok,
    ensures
        create_verdict(after_create(ledger, id, first), id, second) == Err::<(), StoreError>(
            StoreError::AlreadyExists,
        ),
        after_create(after_create(ledger, id, first), id, second) == after_create(
            ledger,
            id,
            first,
        ),
        lookup(after_create(after_create(ledger, id, first), id, second), id) == Some(
            ProposalView::fresh(id, first),
        ),
{
}

/// What was created is what a lookup finds: the request's title, description
/// and creator, every counter at zero, and the proposal open.
pub proof fn law_read_your_write(ledger: Ledger, id: u64, request: RequestView)
    requires
        create_verdict(ledger, id, request) is Ok,
    ensures
        lookup(after_create(ledger, id, request), id) matches Some(record) && {
            &&& record.id == id
            &&& record.title == request.title
            &&& record.description == request.description
            &&& record.creator == request.creator
            &&& record.open
            &&& forall|choice: Choice| record.tally.count(choice) == 0
            &&& record.tally.total() == 0
        },
{
}

/// Of the votes in `votes`, those for the three choices together are all of
/// them.
pub proof fn lemma_occurrences_partition(votes: Seq<Choice>)
    ensures
        occurrences(votes, Choice::Approve) + occurrences(votes, Choice::Reject) + occurrences(
            votes,
            Choice::Pass,
        ) == votes.len(),
    decreases votes.len(),
{
    if votes.len() > 0 {
        lemma_occurrences_partition(votes.drop_last());
    }
}

/// Votes accumulate. After a run of accepted votes on an open proposal, in
/// whatever order they came, each counter has grown by the number of votes
/// for its choice, up to `u64::MAX`, where it stays. Nothing else in the
/// ledger has changed: not the proposal's text, id or open flag, and no other
/// proposal.
pub proof fn law_votes_accumulate(ledger: Ledger, id: u64, votes: Seq<Choice>)
    requires
        ledger.contains_key(id),
        ledger[id].open,
        all_accepted(ledger, id, votes),
    ensures
        after_votes(ledger, id, votes) == ledger.insert(id, after_votes(ledger, id, votes)[id]),
        after_votes(ledger, id, votes)[id] == (ProposalView {
            tally: after_votes(ledger, id, votes)[id].tally,
            ..ledger[id]
        }),
        forall|choice: Choice|
            #![trigger occurrences(votes, choice)]
            after_votes(ledger, id, votes)[id].tally.count(choice) == capped_sum(
                ledger[id].tally.count(choice),
                occurrences(votes, choice),
            ),
    decreases votes.len(),
{
    if votes.len() > 0 {
        let earlier = votes.drop_last();
        law_votes_accumulate(ledger, id, earlier);
        let before = after_votes(ledger, id, earlier);
        assert(after_votes(ledger, id, votes) =~= ledger.insert(
            id,
            after_votes(ledger, id, votes)[id],
        ));
        assert forall|choice: Choice|
            #![trigger occurrences(votes, choice)]
            after_votes(ledger, id, votes)[id].tally.count(choice) == capped_sum(
                ledger[id].tally.count(choice),
                occurrences(votes, choice),
            ) by {
            assert(before[id].tally.count(choice) == capped_sum(
                ledger[id].tally.count(choice),
                occurrences(earlier, choice),
            ));
        }
    }
}

/// On a proposal without votes, a run of accepted votes that is no longer
/// than `u64::MAX` is counted exactly: each counter is the number of votes
/// for its choice, and the counters add up to the number of votes cast.
pub proof fn law_votes_are_counted(ledger: Ledger, id: u64, votes: Seq<Choice>)
    requires
        ledger.contains_key(id),
        ledger[id].open,
        ledger[id].tally == Tally::empty(),
        all_accepted(ledger, id, votes),
        votes.len() <= u64::MAX,
    ensures
        forall|choice: Choice|
            #![trigger occurrences(votes, choice)]
            after_votes(ledger, id, votes)[id].tally.count(choice) == occurrences(votes, choice),
        after_votes(ledger, id, votes)[id].tally.total() == votes.len(),
{
    law_votes_accumulate(ledger, id, votes);
    lemma_occurrences_partition(votes);
}

/// A vote never lowers a counter, and raises none but its own.
pub proof fn law_vote_only_adds(ledger: Ledger, id: u64, choice: Choice, other: Choice)
    requires
        vote_verdict(ledger, id, choice) is Ok,
    ensures
        after_vote(ledger, id, choice)[id].tally.count(other) >= ledger[id].tally.count(other),
        other != choice ==> after_vote(ledger, id, choice)[id].tally.count(other)
            == ledger[id].tally.count(other),
{
}

/// An ended proposal is gone. Once ending has succeeded, a lookup finds
/// nothing under the id, an edit and a vote are refused as not found, and the
/// ledger holds exactly one proposal fewer.
pub proof fn law_end_removes(ledger: Ledger, id: u64, request: RequestView, choice: Choice)
    requires
        ledger.dom().finite(),
        end_verdict(ledger, id) is Ok,
    ensures
        lookup(after_end(ledger, id), id) is None,
        edit_verdict(after_end(ledger, id), id, request) == Err::<(), StoreError>(
            StoreError::NotFound,
        ),
        vote_verdict(after_end(ledger, id), id, choice) == Err::<(), StoreError>(
            StoreError::NotFound,
        ),
        end_verdict(after_end(ledger, id), id) == Err::<(), StoreError>(StoreError::NotFound),
        count(after_end(ledger, id)) == count(ledger) - 1,
{
}

/// The count is the number of ids under which a lookup finds a proposal.
pub proof fn law_count_is_number_found(ledger: Ledger)
    ensures
        count(ledger) == Set::new(|id: u64| lookup(ledger, id) is Some).len(),
{
    assert(ledger.dom() =~= Set::new(|id: u64| lookup(ledger, id) is Some));
}

/// A creation that succeeds raises the count by one; one that is refused
/// leaves it.
pub proof fn law_create_counts(ledger: Ledger, id: u64, request: RequestView)
    requires
        ledger.dom().finite(),
    ensures
        create_verdict(ledger, id, request) is Ok ==> count(after_create(ledger, id, request))
            == count(ledger) + 1,
        create_verdict(ledger, id, request) is Err ==> count(after_create(ledger, id, request))
            == count(ledger),
{
}

/// An ending that succeeds lowers the count by one; one that is refused
/// leaves it.
pub proof fn law_end_counts(ledger: Ledger, id: u64)
    requires
        ledger.dom().finite(),
    ensures
        end_verdict(ledger, id) is Ok ==> count(after_end(ledger, id)) == count(ledger) - 1,
        end_verdict(ledger, id) is Err ==> count(after_end(ledger, id)) == count(ledger),
{
}

/// Edits and votes leave the count alone.
pub proof fn law_update_keeps_count(ledger: Ledger, id: u64, request: RequestView, choice: Choice)
    ensures
        count(after_edit(ledger, id, request)) == count(ledger),
        count(after_vote(ledger, id, choice)) == count(ledger),
{
    if edit_verdict(ledger, id, request) is Ok {
        assert(after_edit(ledger, id, request).dom() =~= ledger.dom());
    }
    if vote_verdict(ledger, id, choice) is Ok {
        assert(after_vote(ledger, id, choice).dom() =~= ledger.dom());
    }
}

/// An edit changes the text and nothing else. Title, description and creator
/// become the request's; id, tally and the open flag of the proposal, and
/// every other proposal, are exactly what they were.
pub proof fn law_edit_changes_text_only(ledger: Ledger, id: u64, request: RequestView)
    requires
        edit_verdict(ledger, id, request) is Ok,
    ensures
        after_edit(ledger, id, request)[id].title == request.title,
        after_edit(ledger, id, request)[id].description == request.description,
        after_edit(ledger, id, request)[id].creator == request.creator,
        after_edit(ledger, id, request)[id].id == ledger[id].id,
        after_edit(ledger, id, request)[id].tally == ledger[id].tally,
        after_edit(ledger, id, request)[id].open == ledger[id].open,
        forall|other: u64|
            other != id ==> lookup(after_edit(ledger, id, request), other) == lookup(
                ledger,
                other,
            ),
{
}

/// A refused operation changes nothing.
pub proof fn law_refusal_changes_nothing(
    ledger: Ledger,
    id: u64,
    request: RequestView,
    choice: Choice,
)
    ensures
        create_verdict(ledger, id, request) is Err ==> after_create(ledger, id, request) == ledger,
        edit_verdict(ledger, id, request) is Err ==> after_edit(ledger, id, request) == ledger,
        vote_verdict(ledger, id, choice) is Err ==> after_vote(ledger, id, choice) == ledger,
        end_verdict(ledger, id) is Err ==> after_end(ledger, id) == ledger,
{
    if !ledger.contains_key(id) {
        assert(after_end(ledger, id) =~= ledger);
    }
}

/// Every operation keeps each proposal under its own id.
pub proof fn law_ids_stay(ledger: Ledger, id: u64, request: RequestView, choice: Choice)
    requires
        keyed(ledger),
    ensures
        keyed(after_create(ledger, id, request)),
        keyed(after_edit(ledger, id, request)),
        keyed(after_vote(ledger, id, choice)),
        keyed(after_end(ledger, id)),
{
}

} // verus!
