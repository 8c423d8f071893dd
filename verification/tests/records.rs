use proposal_store::proposal::{
    next_count, Choice, CreateProposalRequest, Proposal, StoreError, Tally,
};

fn request(title: &str, description: &str, creator: &str) -> CreateProposalRequest {
    CreateProposalRequest {
        title: title.to_string(),
        description: description.to_string(),
        creator: creator.to_string(),
    }
}

#[test]
fn zero_tally_has_every_counter_at_zero() {
    let tally = Tally::zero();
    assert_eq!(tally, Tally { approve: 0, reject: 0, pass: 0 });
    assert_eq!(tally.get(Choice::Approve), 0);
    assert_eq!(tally.get(Choice::Reject), 0);
    assert_eq!(tally.get(Choice::Pass), 0);
    assert_eq!(tally.sum(), 0);
}

#[test]
fn get_reads_the_counter_of_its_choice() {
    let tally = Tally { approve: 3, reject: 5, pass: 7 };
    assert_eq!(tally.get(Choice::Approve), 3);
    assert_eq!(tally.get(Choice::Reject), 5);
    assert_eq!(tally.get(Choice::Pass), 7);
}

#[test]
fn record_raises_one_counter_by_one() {
    let mut tally = Tally { approve: 3, reject: 5, pass: 7 };
    tally.record(Choice::Reject);
    assert_eq!(tally, Tally { approve: 3, reject: 6, pass: 7 });
    tally.record(Choice::Approve);
    assert_eq!(tally, Tally { approve: 4, reject: 6, pass: 7 });
    tally.record(Choice::Pass);
    assert_eq!(tally, Tally { approve: 4, reject: 6, pass: 8 });
}

#[test]
fn record_stops_at_the_greatest_count() {
    let mut tally = Tally { approve: u64::MAX, reject: u64::MAX - 1, pass: 0 };
    tally.record(Choice::Approve);
    assert_eq!(tally.approve, u64::MAX);
    tally.record(Choice::Reject);
    assert_eq!(tally.reject, u64::MAX);
    tally.record(Choice::Reject);
    assert_eq!(tally.reject, u64::MAX);
    assert_eq!(tally.pass, 0);
}

#[test]
fn next_count_adds_one_and_saturates() {
    assert_eq!(next_count(0), 1);
    assert_eq!(next_count(41), 42);
    assert_eq!(next_count(u64::MAX - 1), u64::MAX);
    assert_eq!(next_count(u64::MAX), u64::MAX);
}

#[test]
fn sum_adds_the_three_counters_without_overflow() {
    let tally = Tally { approve: 2, reject: 1, pass: 4 };
    assert_eq!(tally.sum(), 7);
    let full = Tally { approve: u64::MAX, reject: u64::MAX, pass: u64::MAX };
    assert_eq!(full.sum(), 3 * (u64::MAX as u128));
    assert_eq!(full.sum(), 55340232221128654845);
}

#[test]
fn votes_in_any_order_are_counted_per_choice() {
    let mut tally = Tally::zero();
    let votes = [
        Choice::Approve,
        Choice::Reject,
        Choice::Approve,
        Choice::Approve,
        Choice::Reject,
    ];
    for choice in votes {
        tally.record(choice);
    }
    assert_eq!(tally.get(Choice::Approve), 3);
    assert_eq!(tally.get(Choice::Reject), 2);
    assert_eq!(tally.get(Choice::Pass), 0);
    assert_eq!(tally.sum(), 5);
}

#[test]
fn new_proposal_is_open_and_has_no_votes() {
    let proposal = Proposal::new(9, request("A", "d", "alice"));
    assert_eq!(
        proposal,
        Proposal {
            id: 9,
            title: "A".to_string(),
            description: "d".to_string(),
            creator: "alice".to_string(),
            tally: Tally { approve: 0, reject: 0, pass: 0 },
            open: true,
        }
    );
}

#[test]
fn revise_replaces_the_text_and_keeps_the_rest() {
    let mut proposal = Proposal::new(9, request("A", "d", "alice"));
    proposal.tally = Tally { approve: 2, reject: 1, pass: 0 };
    let revised = proposal.revise(request("B", "e", "bob")).unwrap();
    assert_eq!(revised.id, 9);
    assert_eq!(revised.title, "B");
    assert_eq!(revised.description, "e");
    assert_eq!(revised.creator, "bob");
    assert_eq!(revised.tally, Tally { approve: 2, reject: 1, pass: 0 });
    assert!(revised.open);
}

#[test]
fn revise_refuses_a_closed_proposal() {
    let mut proposal = Proposal::new(9, request("A", "d", "alice"));
    proposal.open = false;
    assert_eq!(proposal.revise(request("B", "e", "bob")), Err(StoreError::Closed));
}

#[test]
fn cast_vote_changes_the_tally_only() {
    let proposal = Proposal::new(9, request("A", "d", "alice"));
    let voted = proposal.cast_vote(Choice::Pass).unwrap();
    assert_eq!(
        voted,
        Proposal {
            id: 9,
            title: "A".to_string(),
            description: "d".to_string(),
            creator: "alice".to_string(),
            tally: Tally { approve: 0, reject: 0, pass: 1 },
            open: true,
        }
    );
}

#[test]
fn cast_vote_refuses_a_closed_proposal() {
    let mut proposal = Proposal::new(9, request("A", "d", "alice"));
    proposal.open = false;
    assert_eq!(proposal.cast_vote(Choice::Approve), Err(StoreError::Closed));
}

#[test]
fn clone_copies_every_field() {
    let mut proposal = Proposal::new(9, request("A", "d", "alice"));
    proposal.tally = Tally { approve: 2, reject: 1, pass: 5 };
    let copy = proposal.clone();
    assert_eq!(copy, proposal);
    let asked = request("A", "d", "alice");
    assert_eq!(asked.clone(), asked);
}
