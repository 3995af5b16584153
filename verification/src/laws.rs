//! What holds of the store whatever it holds: how the operations answer one
//! another, and what the listings contain.
//!
//! Each law is stated over [`StoreState`], in the terms in which the
//! operations of [`Vote`](crate::store::Vote) state their own results.

use crate::listing::{lemma_entries, lemma_entries_len, lemma_filter_places};
use crate::record::{Error, Id, VoterOutputView, VoterView, VotesOutputView, VotesView};
use crate::store::{about_evidence, StoreState};
use vstd::prelude::*;

verus! {

/// Whether the identifiers in use are 1, 2 and so on up to the number of
/// records: the state of a collection from which nothing was deleted yet.
pub open spec fn gapless<V>(m: Map<Id, V>) -> bool {
    &&& m.dom().finite()
    &&& m.len() <= Id::MAX
    &&& forall|id: Id| m.contains_key(id) <==> 1 <= id <= m.len()
}

/// A voter that was put in is read back under the identifier it was given,
/// field by field as it was put in.
pub proof fn set_voter_then_get(store: StoreState, voter: VoterView)
    requires
        store.next_voter_id() <= Id::MAX,
    ensures
        store.set_voter(voter).get_voter_by_id(store.next_voter_id() as Id) == Some(
            VoterOutputView::of(store.next_voter_id() as Id, voter),
        ),
        VoterOutputView::of(store.next_voter_id() as Id, voter).record() == voter,
{
}

/// A vote that was put in is read back under the identifier it was given,
/// field by field as it was put in.
pub proof fn set_vote_then_get(store: StoreState, vote: VotesView)
    requires
        store.next_vote_id() <= Id::MAX,
    ensures
        store.set_vote(vote).get_vote_by_id(store.next_vote_id() as Id) == Some(
            VotesOutputView::of(store.next_vote_id() as Id, vote),
        ),
        VotesOutputView::of(store.next_vote_id() as Id, vote).record() == vote,
{
}

/// Deleting a voter that is stored succeeds; the voter is then absent, and
/// deleting it once more is refused with `VoterNotFound` and changes nothing.
pub proof fn burn_voter_then_absent(store: StoreState, voter_id: Id)
    requires
        store.voter.contains_key(voter_id),
    ensures
        store.voter_found(voter_id) == Ok::<(), Error>(()),
        store.burn_voter(voter_id).get_voter_by_id(voter_id) is None,
        store.burn_voter(voter_id).voter_found(voter_id) == Err::<(), Error>(Error::VoterNotFound),
        store.burn_voter(voter_id).burn_voter(voter_id) == store.burn_voter(voter_id),
{
}

/// Deleting a vote that is stored succeeds; the vote is then absent, and
/// deleting it once more is refused with `VoteNotFound` and changes nothing.
pub proof fn burn_vote_then_absent(store: StoreState, vote_id: Id)
    requires
        store.vote.contains_key(vote_id),
    ensures
        store.vote_found(vote_id) == Ok::<(), Error>(()),
        store.burn_vote(vote_id).get_vote_by_id(vote_id) is None,
        store.burn_vote(vote_id).vote_found(vote_id) == Err::<(), Error>(Error::VoteNotFound),
        store.burn_vote(vote_id).burn_vote(vote_id) == store.burn_vote(vote_id),
{
}

/// Updating a voter that is stored succeeds, and the voter read back is the
/// new record in every field: nothing of the old one is left.
pub proof fn update_voter_replaces(store: StoreState, voter_id: Id, new_voter: VoterView)
    requires
        store.voter.contains_key(voter_id),
    ensures
        store.voter_found(voter_id) == Ok::<(), Error>(()),
        store.update_voter(voter_id, new_voter).get_voter_by_id(voter_id) == Some(
            VoterOutputView::of(voter_id, new_voter),
        ),
        VoterOutputView::of(voter_id, new_voter).record() == new_voter,
{
}

/// Updating a vote that is stored succeeds, and the vote read back is the
/// new record in every field: nothing of the old one is left.
pub proof fn update_vote_replaces(store: StoreState, vote_id: Id, new_vote: VotesView)
    requires
        store.vote.contains_key(vote_id),
    ensures
        store.vote_found(vote_id) == Ok::<(), Error>(()),
        store.update_vote(vote_id, new_vote).get_vote_by_id(vote_id) == Some(
            VotesOutputView::of(vote_id, new_vote),
        ),
        VotesOutputView::of(vote_id, new_vote).record() == new_vote,
{
}

/// An operation on one collection leaves the other as it was: there is no
/// cascade from voters to votes or back.
pub proof fn collections_are_independent(
    store: StoreState,
    id: Id,
    voter: VoterView,
    vote: VotesView,
)
    ensures
        store.set_voter(voter).vote == store.vote,
        store.burn_voter(id).vote == store.vote,
        store.update_voter(id, voter).vote == store.vote,
        store.set_vote(vote).voter == store.voter,
        store.burn_vote(id).voter == store.voter,
        store.update_vote(id, vote).voter == store.voter,
{
}

/// In whatever state the store is, the listing of voters goes by strictly
/// growing identifier, so no identifier stands in it twice; it holds the
/// stored voters and nothing else, each as it is read by its identifier.
pub proof fn voter_listing_is_ascending(store: StoreState)
    ensures
        forall|i: int, j: int|
            0 <= i < j < store.get_all_voter().len() ==> store.get_all_voter()[i].voter_id
                < store.get_all_voter()[j].voter_id,
        forall|i: int|
            0 <= i < store.get_all_voter().len() ==> store.get_voter_by_id(
                store.get_all_voter()[i].voter_id,
            ) == Some(#[trigger] store.get_all_voter()[i]),
        forall|voter_id: Id| #[trigger]
            store.voter.contains_key(voter_id) ==> store.get_all_voter().contains(
                VoterOutputView::of(voter_id, store.voter[voter_id]),
            ),
        store.wf() ==> store.get_all_voter().len() == store.voter.len(),
{
    let all = store.get_all_voter();
    let rows = crate::listing::entries(store.voter);
    lemma_entries(store.voter);
    assert forall|i: int| 0 <= i < all.len() implies store.get_voter_by_id(all[i].voter_id)
        == Some(#[trigger] all[i]) by {
        assert(store.voter.contains_key(rows[i].0));
    }
    assert forall|voter_id: Id| #[trigger] store.voter.contains_key(voter_id) implies all.contains(
        VoterOutputView::of(voter_id, store.voter[voter_id]),
    ) by {
        let i = choose|i: int|
            0 <= i < rows.len() && rows[i] == (voter_id, store.voter[voter_id]);
        assert(all[i] == VoterOutputView::of(voter_id, store.voter[voter_id]));
    }
    if store.wf() {
        lemma_entries_len(store.voter);
    }
}

/// In whatever state the store is, the listing of votes goes by strictly
/// growing identifier, so no identifier stands in it twice; it holds the
/// stored votes and nothing else, each as it is read by its identifier.
pub proof fn votes_listing_is_ascending(store: StoreState)
    ensures
        forall|i: int, j: int|
            0 <= i < j < store.get_all_votes().len() ==> store.get_all_votes()[i].vote_id
                < store.get_all_votes()[j].vote_id,
        forall|i: int|
            0 <= i < store.get_all_votes().len() ==> store.get_vote_by_id(
                store.get_all_votes()[i].vote_id,
            ) == Some(#[trigger] store.get_all_votes()[i]),
        forall|vote_id: Id| #[trigger]
            store.vote.contains_key(vote_id) ==> store.get_all_votes().contains(
                VotesOutputView::of(vote_id, store.vote[vote_id]),
            ),
        store.wf() ==> store.get_all_votes().len() == store.vote.len(),
{
    let all = store.get_all_votes();
    let rows = crate::listing::entries(store.vote);
    lemma_entries(store.vote);
    assert forall|i: int| 0 <= i < all.len() implies store.get_vote_by_id(all[i].vote_id) == Some(
        #[trigger] all[i],
    ) by {
        assert(store.vote.contains_key(rows[i].0));
    }
    assert forall|vote_id: Id| #[trigger] store.vote.contains_key(vote_id) implies all.contains(
        VotesOutputView::of(vote_id, store.vote[vote_id]),
    ) by {
        let i = choose|i: int| 0 <= i < rows.len() && rows[i] == (vote_id, store.vote[vote_id]);
        assert(all[i] == VotesOutputView::of(vote_id, store.vote[vote_id]));
    }
    if store.wf() {
        lemma_entries_len(store.vote);
    }
}

/// The votes listed for an evidence are about that evidence and are stored
/// votes; every stored vote about it is listed, and exactly once, since the
/// identifiers in the listing grow strictly.
pub proof fn evidence_listing_is_exact(store: StoreState, evidence_id: Id)
    ensures
        forall|i: int|
            0 <= i < store.votes_by_evidence_id(evidence_id).len() ==> {
                let vote = #[trigger] store.votes_by_evidence_id(evidence_id)[i];
                vote.evidence_id == evidence_id && store.get_vote_by_id(vote.vote_id) == Some(vote)
            },
        forall|vote_id: Id|
            store.vote.contains_key(vote_id) && (#[trigger] store.vote[vote_id]).evidence_id
                == evidence_id ==> store.votes_by_evidence_id(evidence_id).contains(
                VotesOutputView::of(vote_id, store.vote[vote_id]),
            ),
        forall|i: int, j: int|
            0 <= i < j < store.votes_by_evidence_id(evidence_id).len()
                ==> store.votes_by_evidence_id(evidence_id)[i].vote_id
                < store.votes_by_evidence_id(evidence_id)[j].vote_id,
{
    let all = store.get_all_votes();
    let kept = store.votes_by_evidence_id(evidence_id);
    votes_listing_is_ascending(store);
    let at = lemma_filter_places(all, about_evidence(evidence_id));
    assert forall|i: int| 0 <= i < kept.len() implies {
        let vote = #[trigger] kept[i];
        vote.evidence_id == evidence_id && store.get_vote_by_id(vote.vote_id) == Some(vote)
    } by {
        assert(kept[i] == all[at[i]]);
    }
    assert forall|vote_id: Id|
        store.vote.contains_key(vote_id) && (#[trigger] store.vote[vote_id]).evidence_id
            == evidence_id implies kept.contains(
        VotesOutputView::of(vote_id, store.vote[vote_id]),
    ) by {
        let vote = VotesOutputView::of(vote_id, store.vote[vote_id]);
        assert(all.contains(vote));
        let k = choose|k: int| 0 <= k < all.len() && all[k] == vote;
        assert(about_evidence(evidence_id)(all[k]));
        let i = choose|i: int| 0 <= i < at.len() && at[i] == k;
        assert(kept[i] == vote);
    }
    assert forall|i: int, j: int| 0 <= i < j < kept.len() implies kept[i].vote_id
        < kept[j].vote_id by {
        assert(kept[i] == all[at[i]]);
        assert(kept[j] == all[at[j]]);
    }
}

/// A store that was just made holds nothing: every lookup is empty, every
/// listing is empty, and every update or delete is refused.
pub proof fn empty_store_holds_nothing(id: Id)
    ensures
        StoreState::empty().get_voter_by_id(id) is None,
        StoreState::empty().get_vote_by_id(id) is None,
        StoreState::empty().voter_found(id) == Err::<(), Error>(Error::VoterNotFound),
        StoreState::empty().vote_found(id) == Err::<(), Error>(Error::VoteNotFound),
        StoreState::empty().get_all_voter().len() == 0,
        StoreState::empty().get_all_votes().len() == 0,
        StoreState::empty().votes_by_evidence_id(id).len() == 0,
        StoreState::empty().next_voter_id() == 1,
        StoreState::empty().next_vote_id() == 1,
        gapless(StoreState::empty().voter),
        gapless(StoreState::empty().vote),
{
    let store = StoreState::empty();
    voter_listing_is_ascending(store);
    votes_listing_is_ascending(store);
    store.get_all_votes().lemma_filter_len(about_evidence(id));
}

/// As long as nothing was deleted, a new voter gets an identifier that was
/// not in use: the collection grows by that one record, every other record
/// stays, and the identifiers are without gap again.
pub proof fn set_voter_is_fresh_while_gapless(store: StoreState, voter: VoterView)
    requires
        gapless(store.voter),
        store.next_voter_id() <= Id::MAX,
    ensures
        !store.voter.contains_key(store.next_voter_id() as Id),
        store.set_voter(voter).voter.len() == store.voter.len() + 1,
        forall|id: Id| #[trigger]
            store.voter.contains_key(id) ==> store.set_voter(voter).get_voter_by_id(id)
                == store.get_voter_by_id(id),
        gapless(store.set_voter(voter).voter),
{
}

/// As long as nothing was deleted, a new vote gets an identifier that was
/// not in use: the collection grows by that one record, every other record
/// stays, and the identifiers are without gap again.
pub proof fn set_vote_is_fresh_while_gapless(store: StoreState, vote: VotesView)
    requires
        gapless(store.vote),
        store.next_vote_id() <= Id::MAX,
    ensures
        !store.vote.contains_key(store.next_vote_id() as Id),
        store.set_vote(vote).vote.len() == store.vote.len() + 1,
        forall|id: Id| #[trigger]
            store.vote.contains_key(id) ==> store.set_vote(vote).get_vote_by_id(id)
                == store.get_vote_by_id(id),
        gapless(store.set_vote(vote).vote),
{
}

/// After a delete the next identifier can be one that is in use. Where two
/// or more voters are stored without gap and the first is deleted, the next
/// voter gets the identifier of the last one and takes its place: the
/// collection does not grow.
pub proof fn set_voter_after_burn_reuses(store: StoreState, voter: VoterView)
    requires
        gapless(store.voter),
        store.voter.len() >= 2,
    ensures
        store.burn_voter(1).next_voter_id() == store.voter.len(),
        store.burn_voter(1).voter.contains_key(store.voter.len() as Id),
        store.burn_voter(1).set_voter(voter).voter.len() == store.voter.len() - 1,
        store.burn_voter(1).set_voter(voter).get_voter_by_id(store.voter.len() as Id) == Some(
            VoterOutputView::of(store.voter.len() as Id, voter),
        ),
{
    let last = store.voter.len() as Id;
    let after = store.burn_voter(1);
    assert(store.voter.contains_key(1));
    assert(store.voter.contains_key(last));
    assert(after.set_voter(voter).voter =~= after.voter.insert(last, voter));
    assert(after.voter.insert(last, voter).dom() =~= after.voter.dom());
}

} // verus!
