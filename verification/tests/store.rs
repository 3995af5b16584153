use vote::{checked_next_id, Error, Vote, Voter, VoterOutput, Votes, VotesOutput};

fn voter(case_id: u32, name: &str, amount_hold: u128, vote_credit: u128) -> Voter {
    Voter { case_id, voter: name.to_string(), amount_hold, vote_credit }
}

fn ballot(case_id: u32, evidence_id: u32, name: &str, yes: u8, no: u8, reward: u8) -> Votes {
    Votes {
        case_id,
        evidence_id,
        voter: name.to_string(),
        yes_credit: yes,
        no_credit: no,
        distribution_reward: reward,
    }
}

fn assert_voter(out: &VoterOutput, id: u32, case_id: u32, name: &str, hold: u128, credit: u128) {
    assert_eq!(out.voter_id, id);
    assert_eq!(out.case_id, case_id);
    assert_eq!(out.voter, name);
    assert_eq!(out.amount_hold, hold);
    assert_eq!(out.vote_credit, credit);
}

fn assert_ballot(
    out: &VotesOutput,
    id: u32,
    case_id: u32,
    evidence_id: u32,
    name: &str,
    yes: u8,
    no: u8,
    reward: u8,
) {
    assert_eq!(out.vote_id, id);
    assert_eq!(out.case_id, case_id);
    assert_eq!(out.evidence_id, evidence_id);
    assert_eq!(out.voter, name);
    assert_eq!(out.yes_credit, yes);
    assert_eq!(out.no_credit, no);
    assert_eq!(out.distribution_reward, reward);
}

#[test]
fn new_store_is_empty() {
    let store = Vote::new();
    assert!(store.get_all_voter().is_empty());
    assert!(store.get_all_votes().is_empty());
    assert!(store.votes_by_evidence_id(1).is_empty());
    assert!(store.get_voter_by_id(1).is_none());
    assert!(store.get_vote_by_id(1).is_none());
    assert!(store.get_voter_by_id(0).is_none());
}

#[test]
fn next_identifier_is_size_plus_one() {
    assert_eq!(checked_next_id(0), Some(1));
    assert_eq!(checked_next_id(1), Some(2));
    assert_eq!(checked_next_id(41), Some(42));
    assert_eq!(checked_next_id(u32::MAX as usize - 1), Some(u32::MAX));
}

#[test]
fn next_identifier_stops_at_the_last_one() {
    assert_eq!(checked_next_id(u32::MAX as usize), None);
    assert_eq!(checked_next_id(usize::MAX), None);
}

#[test]
fn store_tells_the_next_identifier() {
    let mut store = Vote::new();
    assert_eq!(store.next_voter_id(), Some(1));
    assert_eq!(store.next_vote_id(), Some(1));
    store.set_voter(voter(1, "a", 1, 1));
    store.set_voter(voter(1, "b", 1, 1));
    store.set_vote(ballot(1, 1, "a", 1, 0, 0));
    assert_eq!(store.next_voter_id(), Some(3));
    assert_eq!(store.next_vote_id(), Some(2));
    assert_eq!(store.burn_voter(1), Ok(()));
    assert_eq!(store.next_voter_id(), Some(2));
    assert_eq!(store.next_vote_id(), Some(2));
}

#[test]
fn set_voter_then_get_returns_the_record() {
    let mut store = Vote::new();
    let id = store.set_voter(voter(7, "dave", u128::MAX, 0));
    assert_eq!(id, 1);
    let got = store.get_voter_by_id(id).expect("the voter was just put in");
    assert_voter(&got, 1, 7, "dave", u128::MAX, 0);
}

#[test]
fn set_vote_then_get_returns_the_record() {
    let mut store = Vote::new();
    let id = store.set_vote(ballot(3, 9, "erin", 255, 0, 17));
    assert_eq!(id, 1);
    let got = store.get_vote_by_id(id).expect("the vote was just put in");
    assert_ballot(&got, 1, 3, 9, "erin", 255, 0, 17);
}

#[test]
fn identifiers_count_up_from_one() {
    let mut store = Vote::new();
    assert_eq!(store.set_voter(voter(1, "a", 1, 1)), 1);
    assert_eq!(store.set_voter(voter(1, "b", 2, 2)), 2);
    assert_eq!(store.set_voter(voter(1, "c", 3, 3)), 3);
    assert_eq!(store.set_vote(ballot(1, 1, "a", 1, 0, 0)), 1);
    assert_eq!(store.set_vote(ballot(1, 1, "b", 0, 1, 0)), 2);
}

#[test]
fn voter_and_vote_identifiers_are_independent() {
    let mut store = Vote::new();
    for name in ["a", "b", "c"] {
        store.set_voter(voter(1, name, 10, 1));
        store.set_vote(ballot(2, 5, name, 1, 2, 3));
    }
    let v = store.get_voter_by_id(3).expect("voter 3");
    let b = store.get_vote_by_id(3).expect("vote 3");
    assert_voter(&v, 3, 1, "c", 10, 1);
    assert_ballot(&b, 3, 2, 5, "c", 1, 2, 3);
}

#[test]
fn burn_voter_then_absent_and_second_burn_fails() {
    let mut store = Vote::new();
    let id = store.set_voter(voter(1, "alice", 100, 10));
    assert_eq!(store.burn_voter(id), Ok(()));
    assert!(store.get_voter_by_id(id).is_none());
    assert_eq!(store.burn_voter(id), Err(Error::VoterNotFound));
    assert!(store.get_all_voter().is_empty());
}

#[test]
fn burn_vote_then_absent_and_second_burn_fails() {
    let mut store = Vote::new();
    let id = store.set_vote(ballot(1, 2, "alice", 3, 4, 5));
    assert_eq!(store.burn_vote(id), Ok(()));
    assert!(store.get_vote_by_id(id).is_none());
    assert_eq!(store.burn_vote(id), Err(Error::VoteNotFound));
    assert!(store.get_all_votes().is_empty());
}

#[test]
fn burn_of_absent_identifier_changes_nothing() {
    let mut store = Vote::new();
    store.set_voter(voter(1, "alice", 100, 10));
    store.set_vote(ballot(1, 2, "alice", 3, 4, 5));
    assert_eq!(store.burn_voter(2), Err(Error::VoterNotFound));
    assert_eq!(store.burn_vote(0), Err(Error::VoteNotFound));
    assert_eq!(store.get_all_voter().len(), 1);
    assert_eq!(store.get_all_votes().len(), 1);
}

#[test]
fn update_voter_replaces_every_field() {
    let mut store = Vote::new();
    let id = store.set_voter(voter(1, "alice", 100, 10));
    assert_eq!(store.update_voter(id, voter(9, "zed", 0, 77)), Ok(()));
    let got = store.get_voter_by_id(id).expect("voter 1");
    assert_voter(&got, 1, 9, "zed", 0, 77);
    assert_eq!(store.get_all_voter().len(), 1);
}

#[test]
fn update_vote_replaces_every_field() {
    let mut store = Vote::new();
    let id = store.set_vote(ballot(1, 2, "alice", 3, 4, 5));
    assert_eq!(store.update_vote(id, ballot(6, 7, "bob", 8, 9, 10)), Ok(()));
    let got = store.get_vote_by_id(id).expect("vote 1");
    assert_ballot(&got, 1, 6, 7, "bob", 8, 9, 10);
    assert_eq!(store.get_all_votes().len(), 1);
}

#[test]
fn update_voter_of_absent_identifier_fails() {
    let mut store = Vote::new();
    store.set_voter(voter(1, "alice", 100, 10));
    assert_eq!(store.update_voter(2, voter(1, "bob", 1, 1)), Err(Error::VoterNotFound));
    let all = store.get_all_voter();
    assert_eq!(all.len(), 1);
    assert_voter(&all[0], 1, 1, "alice", 100, 10);
}

#[test]
fn update_vote_on_empty_store_fails_with_not_found() {
    let mut store = Vote::new();
    assert_eq!(store.update_vote(999, ballot(1, 1, "anyone", 1, 1, 1)), Err(Error::VoteNotFound));
    assert!(store.get_all_votes().is_empty());
    assert!(store.get_vote_by_id(999).is_none());
}

#[test]
fn listing_is_in_ascending_identifier_order() {
    let mut store = Vote::new();
    for name in ["a", "b", "c", "d", "e"] {
        store.set_voter(voter(1, name, 1, 1));
    }
    assert_eq!(store.burn_voter(2), Ok(()));
    assert_eq!(store.burn_voter(4), Ok(()));
    let all = store.get_all_voter();
    let ids: Vec<u32> = all.iter().map(|v| v.voter_id).collect();
    assert_eq!(ids, vec![1, 3, 5]);
    let names: Vec<&str> = all.iter().map(|v| v.voter.as_str()).collect();
    assert_eq!(names, vec!["a", "c", "e"]);
}

#[test]
fn listing_of_votes_holds_every_vote_once() {
    let mut store = Vote::new();
    store.set_vote(ballot(1, 10, "a", 1, 0, 0));
    store.set_vote(ballot(1, 20, "b", 0, 1, 0));
    store.set_vote(ballot(2, 10, "c", 2, 2, 2));
    let all = store.get_all_votes();
    assert_eq!(all.len(), 3);
    assert_ballot(&all[0], 1, 1, 10, "a", 1, 0, 0);
    assert_ballot(&all[1], 2, 1, 20, "b", 0, 1, 0);
    assert_ballot(&all[2], 3, 2, 10, "c", 2, 2, 2);
}

#[test]
fn votes_by_evidence_id_keeps_matching_votes_in_order() {
    let mut store = Vote::new();
    store.set_vote(ballot(1, 10, "a", 1, 0, 0));
    store.set_vote(ballot(1, 20, "b", 0, 1, 0));
    store.set_vote(ballot(2, 10, "c", 2, 2, 2));
    store.set_vote(ballot(2, 30, "d", 3, 3, 3));
    store.set_vote(ballot(3, 10, "e", 4, 4, 4));
    let about_ten = store.votes_by_evidence_id(10);
    assert_eq!(about_ten.len(), 3);
    assert_ballot(&about_ten[0], 1, 1, 10, "a", 1, 0, 0);
    assert_ballot(&about_ten[1], 3, 2, 10, "c", 2, 2, 2);
    assert_ballot(&about_ten[2], 5, 3, 10, "e", 4, 4, 4);
    let about_twenty = store.votes_by_evidence_id(20);
    assert_eq!(about_twenty.len(), 1);
    assert_ballot(&about_twenty[0], 2, 1, 20, "b", 0, 1, 0);
}

#[test]
fn votes_by_evidence_id_filters_on_evidence_not_on_case() {
    let mut store = Vote::new();
    store.set_vote(ballot(10, 1, "a", 1, 0, 0));
    store.set_vote(ballot(1, 10, "b", 0, 1, 0));
    let got = store.votes_by_evidence_id(10);
    assert_eq!(got.len(), 1);
    assert_ballot(&got[0], 2, 1, 10, "b", 0, 1, 0);
}

#[test]
fn votes_by_evidence_id_without_match_is_empty() {
    let mut store = Vote::new();
    store.set_vote(ballot(1, 10, "a", 1, 0, 0));
    assert!(store.votes_by_evidence_id(11).is_empty());
    assert!(store.votes_by_evidence_id(0).is_empty());
}

#[test]
fn burning_a_voter_leaves_the_votes() {
    let mut store = Vote::new();
    store.set_voter(voter(1, "alice", 100, 10));
    store.set_vote(ballot(1, 10, "alice", 1, 0, 0));
    assert_eq!(store.burn_voter(1), Ok(()));
    let votes = store.get_all_votes();
    assert_eq!(votes.len(), 1);
    assert_ballot(&votes[0], 1, 1, 10, "alice", 1, 0, 0);
    assert_eq!(store.burn_vote(1), Ok(()));
    assert!(store.get_all_voter().is_empty());
}

#[test]
fn identifier_is_reused_after_a_delete() {
    let mut store = Vote::new();
    assert_eq!(store.set_voter(voter(1, "alice", 100, 10)), 1);
    assert_eq!(store.set_voter(voter(1, "bob", 50, 5)), 2);
    assert_eq!(store.burn_voter(1), Ok(()));
    // The size is 1 again, so the next identifier is 2, which bob holds.
    assert_eq!(store.set_voter(voter(2, "carol", 20, 2)), 2);
    let all = store.get_all_voter();
    assert_eq!(all.len(), 1);
    assert_voter(&all[0], 2, 2, "carol", 20, 2);
    assert!(store.get_voter_by_id(1).is_none());
    let got = store.get_voter_by_id(2).expect("voter 2");
    assert_voter(&got, 2, 2, "carol", 20, 2);
    assert!(store.get_voter_by_id(3).is_none());
}

#[test]
fn identifier_below_a_deleted_one_is_given_again() {
    let mut store = Vote::new();
    for name in ["a", "b", "c"] {
        store.set_vote(ballot(1, 1, name, 0, 0, 0));
    }
    assert_eq!(store.burn_vote(3), Ok(()));
    assert_eq!(store.burn_vote(2), Ok(()));
    assert_eq!(store.set_vote(ballot(1, 1, "d", 0, 0, 0)), 2);
    let ids: Vec<u32> = store.get_all_votes().iter().map(|v| v.vote_id).collect();
    assert_eq!(ids, vec![1, 2]);
}

#[test]
fn output_carries_the_identifier_and_every_field() {
    let out = VoterOutput::get_voter(42, &voter(5, "frank", 6, 7));
    assert_voter(&out, 42, 5, "frank", 6, 7);
    let out = VotesOutput::get_vote(u32::MAX, &ballot(1, 2, "grace", 3, 4, 5));
    assert_ballot(&out, u32::MAX, 1, 2, "grace", 3, 4, 5);
}

#[test]
fn store_fields_are_the_two_collections() {
    let mut store = Vote::new();
    store.set_voter(voter(1, "alice", 100, 10));
    store.set_vote(ballot(1, 10, "alice", 1, 0, 0));
    store.set_vote(ballot(1, 11, "alice", 0, 1, 0));
    assert_eq!(store.voter.len(), 1);
    assert_eq!(store.vote.len(), 2);
    assert_eq!(store.voter.keys().copied().collect::<Vec<u32>>(), vec![1]);
    assert_eq!(store.vote.keys().copied().collect::<Vec<u32>>(), vec![1, 2]);
}

#[test]
fn error_variants_differ() {
    assert_ne!(Error::VoterNotFound, Error::VoteNotFound);
    assert_eq!(format!("{:?}", Error::VoterNotFound), "VoterNotFound");
    assert_eq!(format!("{:?}", Error::VoteNotFound), "VoteNotFound");
}
