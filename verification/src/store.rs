//! The record store: two collections, one of voters and one of votes, each
//! keyed by identifiers that the collection itself assigns.
//!
//! A new record gets the collection's size plus one as its identifier. The
//! size shrinks when a record is deleted, so the identifier of the next new
//! record may be one that is still in use: the record stored under it is then
//! replaced. [`StoreState::set_voter`] and [`StoreState::set_vote`] say exactly
//! this, and nothing here hides it.

use crate::listing::entries;
use crate::record::{
    lemma_record_views, record_views, views, Error, Id, Voter, VoterOutput, VoterOutputView,
    VoterView, Votes, VotesOutput, VotesOutputView, VotesView,
};
use crate::walk::{lemma_walk_is_entries, walked};
use ink_prelude::collections::BTreeMap;
use ink_prelude::vec::Vec;
use vstd::prelude::*;
use vstd::std_specs::iter::IteratorSpec;

verus! {

/// The number that a collection of `size` records gives to its next record:
/// one more than its size.
pub open spec fn next_id(size: nat) -> nat {
    size + 1
}

/// The identifier that a collection of `len` records gives to its next
/// record, or `None` where that number is no identifier any more.
pub fn checked_next_id(len: usize) -> (id: Option<Id>)
    ensures
        id == (if next_id(len as nat) <= Id::MAX {
            Some(next_id(len as nat) as Id)
        } else {
            None
        }),
{
    if len < Id::MAX as usize {
        Some(len as Id + 1)
    } else {
        None
    }
}

/// The votes that are about the evidence `evidence_id`.
pub open spec fn about_evidence(evidence_id: Id) -> spec_fn(VotesOutputView) -> bool {
    |vote: VotesOutputView| vote.evidence_id == evidence_id
}

/// The store: the voter records and the vote records, each collection under
/// its own identifiers.
pub struct Vote {
    pub voter: BTreeMap<Id, Voter>,
    pub vote: BTreeMap<Id, Votes>,
}

/// What a store holds: for each collection, the record under each identifier.
#[verifier::ext_equal]
pub struct StoreState {
    pub voter: Map<Id, VoterView>,
    pub vote: Map<Id, VotesView>,
}

impl View for Vote {
    type V = StoreState;

    open spec fn view(&self) -> StoreState {
        StoreState { voter: record_views(self.voter@), vote: record_views(self.vote@) }
    }
}

impl StoreState {
    /// The store without any record.
    pub open spec fn empty() -> StoreState {
        StoreState { voter: Map::empty(), vote: Map::empty() }
    }

    /// Whether each collection holds finitely many records. It holds of the
    /// view of every [`Vote`].
    pub open spec fn wf(self) -> bool {
        self.voter.dom().finite() && self.vote.dom().finite()
    }

    /// The number that the next voter record gets.
    pub open spec fn next_voter_id(self) -> nat {
        next_id(self.voter.len())
    }

    /// The number that the next vote record gets.
    pub open spec fn next_vote_id(self) -> nat {
        next_id(self.vote.len())
    }

    /// The store after `voter` was put in under the next voter identifier.
    /// Where a record is stored under that identifier, it is replaced.
    pub open spec fn set_voter(self, voter: VoterView) -> StoreState {
        StoreState { voter: self.voter.insert(self.next_voter_id() as Id, voter), vote: self.vote }
    }

    /// The store after `vote` was put in under the next vote identifier.
    /// Where a record is stored under that identifier, it is replaced.
    pub open spec fn set_vote(self, vote: VotesView) -> StoreState {
        StoreState { voter: self.voter, vote: self.vote.insert(self.next_vote_id() as Id, vote) }
    }

    /// What a delete or an update of the voter `voter_id` answers: success
    /// where a voter is stored under `voter_id`, and `VoterNotFound` where
    /// none is.
    pub open spec fn voter_found(self, voter_id: Id) -> Result<(), Error> {
        if self.voter.contains_key(voter_id) {
            Ok(())
        } else {
            Err(Error::VoterNotFound)
        }
    }

    /// What a delete or an update of the vote `vote_id` answers: success
    /// where a vote is stored under `vote_id`, and `VoteNotFound` where none
    /// is.
    pub open spec fn vote_found(self, vote_id: Id) -> Result<(), Error> {
        if self.vote.contains_key(vote_id) {
            Ok(())
        } else {
            Err(Error::VoteNotFound)
        }
    }

    /// The store after the voter `voter_id` was deleted: without that one
    /// record, and unchanged where there was none.
    pub open spec fn burn_voter(self, voter_id: Id) -> StoreState {
        if self.voter.contains_key(voter_id) {
            StoreState { voter: self.voter.remove(voter_id), vote: self.vote }
        } else {
            self
        }
    }

    /// The store after the vote `vote_id` was deleted: without that one
    /// record, and unchanged where there was none.
    pub open spec fn burn_vote(self, vote_id: Id) -> StoreState {
        if self.vote.contains_key(vote_id) {
            StoreState { voter: self.voter, vote: self.vote.remove(vote_id) }
        } else {
            self
        }
    }

    /// The store after the voter `voter_id` was updated: `new_voter` stands
    /// in place of the whole record, and nothing changed where there was
    /// none.
    pub open spec fn update_voter(self, voter_id: Id, new_voter: VoterView) -> StoreState {
        if self.voter.contains_key(voter_id) {
            StoreState { voter: self.voter.insert(voter_id, new_voter), vote: self.vote }
        } else {
            self
        }
    }

    /// The store after the vote `vote_id` was updated: `new_vote` stands in
    /// place of the whole record, and nothing changed where there was none.
    pub open spec fn update_vote(self, vote_id: Id, new_vote: VotesView) -> StoreState {
        if self.vote.contains_key(vote_id) {
            StoreState { voter: self.voter, vote: self.vote.insert(vote_id, new_vote) }
        } else {
            self
        }
    }

    /// The voter stored under `voter_id`, if there is one.
    pub open spec fn get_voter_by_id(self, voter_id: Id) -> Option<VoterOutputView> {
        if self.voter.contains_key(voter_id) {
            Some(VoterOutputView::of(voter_id, self.voter[voter_id]))
        } else {
            None
        }
    }

    /// The vote stored under `vote_id`, if there is one.
    pub open spec fn get_vote_by_id(self, vote_id: Id) -> Option<VotesOutputView> {
        if self.vote.contains_key(vote_id) {
            Some(VotesOutputView::of(vote_id, self.vote[vote_id]))
        } else {
            None
        }
    }

    /// All voters, by ascending identifier.
    pub open spec fn get_all_voter(self) -> Seq<VoterOutputView> {
        entries(self.voter).map_values(|e: (Id, VoterView)| VoterOutputView::of(e.0, e.1))
    }

    /// All votes, by ascending identifier.
    pub open spec fn get_all_votes(self) -> Seq<VotesOutputView> {
        entries(self.vote).map_values(|e: (Id, VotesView)| VotesOutputView::of(e.0, e.1))
    }

    /// The votes about the evidence `evidence_id`, by ascending identifier.
    pub open spec fn votes_by_evidence_id(self, evidence_id: Id) -> Seq<VotesOutputView> {
        self.get_all_votes().filter(about_evidence(evidence_id))
    }
}

impl Vote {
    /// The view of a store is well formed, and each of its collections has
    /// the size of the collection that it is the view of.
    pub proof fn lemma_view(&self)
        ensures
            self@.wf(),
            self@.voter.len() == self.voter@.len(),
            self@.vote.len() == self.vote@.len(),
    {
        lemma_record_views(self.voter@);
        lemma_record_views(self.vote@);
    }

    /// A store without any record.
    pub fn new() -> (store: Vote)
        ensures
            store@ == StoreState::empty(),
    {
        Vote { voter: BTreeMap::new(), vote: BTreeMap::new() }
    }

    /// The identifier that the next voter gets, or `None` where the
    /// collection is so large that no identifier is left for it.
    pub fn next_voter_id(&self) -> (voter_id: Option<Id>)
        ensures
            voter_id == (if self@.next_voter_id() <= Id::MAX {
                Some(self@.next_voter_id() as Id)
            } else {
                None
            }),
    {
        proof {
            self.lemma_view();
        }
        checked_next_id(self.voter.len())
    }

    /// The identifier that the next vote gets, or `None` where the
    /// collection is so large that no identifier is left for it.
    pub fn next_vote_id(&self) -> (vote_id: Option<Id>)
        ensures
            vote_id == (if self@.next_vote_id() <= Id::MAX {
                Some(self@.next_vote_id() as Id)
            } else {
                None
            }),
    {
        proof {
            self.lemma_view();
        }
        checked_next_id(self.vote.len())
    }

    /// Puts `voter` in under the next voter identifier, which is the number
    /// of voter records plus one, and answers that identifier.
    ///
    /// After a delete that identifier may be in use; the record stored under
    /// it is then replaced. A collection for which no identifier is left
    /// takes no further record: see [`Vote::next_voter_id`].
    pub fn set_voter(&mut self, voter: Voter) -> (voter_id: Id)
        requires
            old(self)@.next_voter_id() <= Id::MAX,
        ensures
            voter_id == old(self)@.next_voter_id(),
            final(self)@ == old(self)@.set_voter(voter@),
    {
        let voter_id: Id = self.next_voter_id().unwrap();
        self.voter.insert(voter_id, voter);
        voter_id
    }

    /// Puts `vote` in under the next vote identifier, which is the number of
    /// vote records plus one, and answers that identifier.
    ///
    /// After a delete that identifier may be in use; the record stored under
    /// it is then replaced. A collection for which no identifier is left
    /// takes no further record: see [`Vote::next_vote_id`].
    pub fn set_vote(&mut self, vote: Votes) -> (vote_id: Id)
        requires
            old(self)@.next_vote_id() <= Id::MAX,
        ensures
            vote_id == old(self)@.next_vote_id(),
            final(self)@ == old(self)@.set_vote(vote@),
    {
        let vote_id: Id = self.next_vote_id().unwrap();
        self.vote.insert(vote_id, vote);
        vote_id
    }

    /// Deletes the voter stored under `voter_id`. Where none is stored under
    /// it, the answer is `VoterNotFound` and nothing changes. Votes are not
    /// touched, whatever voter they name.
    pub fn burn_voter(&mut self, voter_id: Id) -> (res: Result<(), Error>)
        ensures
            res == old(self)@.voter_found(voter_id),
            final(self)@ == old(self)@.burn_voter(voter_id),
    {
        if !self.voter.contains_key(&voter_id) {
            return Err(Error::VoterNotFound);
        }
        self.voter.remove(&voter_id);
        Ok(())
    }

    /// Deletes the vote stored under `vote_id`. Where none is stored under
    /// it, the answer is `VoteNotFound` and nothing changes. Voters are not
    /// touched.
    pub fn burn_vote(&mut self, vote_id: Id) -> (res: Result<(), Error>)
        ensures
            res == old(self)@.vote_found(vote_id),
            final(self)@ == old(self)@.burn_vote(vote_id),
    {
        if !self.vote.contains_key(&vote_id) {
            return Err(Error::VoteNotFound);
        }
        self.vote.remove(&vote_id);
        Ok(())
    }

    /// Puts `new_voter` in place of the voter stored under `voter_id`: the
    /// whole record is replaced, no field of the old one is kept. Where none
    /// is stored under `voter_id`, the answer is `VoterNotFound` and nothing
    /// changes.
    pub fn update_voter(&mut self, voter_id: Id, new_voter: Voter) -> (res: Result<(), Error>)
        ensures
            res == old(self)@.voter_found(voter_id),
            final(self)@ == old(self)@.update_voter(voter_id, new_voter@),
    {
        if !self.voter.contains_key(&voter_id) {
            return Err(Error::VoterNotFound);
        }
        self.voter.insert(voter_id, new_voter);
        Ok(())
    }

    /// Puts `new_vote` in place of the vote stored under `vote_id`: the
    /// whole record is replaced, no field of the old one is kept. Where none
    /// is stored under `vote_id`, the answer is `VoteNotFound` and nothing
    /// changes.
    pub fn update_vote(&mut self, vote_id: Id, new_vote: Votes) -> (res: Result<(), Error>)
        ensures
            res == old(self)@.vote_found(vote_id),
            final(self)@ == old(self)@.update_vote(vote_id, new_vote@),
    {
        if !self.vote.contains_key(&vote_id) {
            return Err(Error::VoteNotFound);
        }
        self.vote.insert(vote_id, new_vote);
        Ok(())
    }

    /// All voters with their identifiers, by ascending identifier.
    pub fn get_all_voter(&self) -> (out: Vec<VoterOutput>)
        ensures
            views(out@) == self@.get_all_voter(),
    {
        let mut out: Vec<VoterOutput> = Vec::new();
        let ghost walk = self.voter.iter().remaining();
        for kv in it: self.voter.iter()
            invariant
                it.seq() == walk,
                out@.len() == it.index(),
                forall|i: int|
                    0 <= i < out@.len() ==> (#[trigger] out@[i])@ == VoterOutputView::of(
                        *walk[i].0,
                        (*walk[i].1)@,
                    ),
        {
            out.push(VoterOutput::get_voter(*kv.0, kv.1));
        }
        proof {
            lemma_walk_is_entries(self.voter@, walk);
            assert(views(out@) =~= self@.get_all_voter());
        }
        out
    }

    /// The voter stored under `voter_id`, or `None` where there is none.
    pub fn get_voter_by_id(&self, voter_id: Id) -> (res: Option<VoterOutput>)
        ensures
            match res {
                Some(out) => self@.get_voter_by_id(voter_id) == Some(out@),
                None => self@.get_voter_by_id(voter_id) is None,
            },
    {
        if let Some(voter) = self.voter.get(&voter_id) {
            Some(VoterOutput::get_voter(voter_id, voter))
        } else {
            None
        }
    }

    /// All votes with their identifiers, by ascending identifier.
    pub fn get_all_votes(&self) -> (out: Vec<VotesOutput>)
        ensures
            views(out@) == self@.get_all_votes(),
    {
        let mut out: Vec<VotesOutput> = Vec::new();
        let ghost walk = self.vote.iter().remaining();
        for kv in it: self.vote.iter()
            invariant
                it.seq() == walk,
                out@.len() == it.index(),
                forall|i: int|
                    0 <= i < out@.len() ==> (#[trigger] out@[i])@ == VotesOutputView::of(
                        *walk[i].0,
                        (*walk[i].1)@,
                    ),
        {
            out.push(VotesOutput::get_vote(*kv.0, kv.1));
        }
        proof {
            lemma_walk_is_entries(self.vote@, walk);
            assert(views(out@) =~= self@.get_all_votes());
        }
        out
    }

    /// The vote stored under `vote_id`, or `None` where there is none.
    pub fn get_vote_by_id(&self, vote_id: Id) -> (res: Option<VotesOutput>)
        ensures
            match res {
                Some(out) => self@.get_vote_by_id(vote_id) == Some(out@),
                None => self@.get_vote_by_id(vote_id) is None,
            },
    {
        if let Some(vote) = self.vote.get(&vote_id) {
            Some(VotesOutput::get_vote(vote_id, vote))
        } else {
            None
        }
    }

    /// The votes about the evidence `evidence_id`, by ascending identifier;
    /// none where no vote is about it.
    pub fn votes_by_evidence_id(&self, evidence_id: Id) -> (out: Vec<VotesOutput>)
        ensures
            views(out@) == self@.votes_by_evidence_id(evidence_id),
    {
        let mut out: Vec<VotesOutput> = Vec::new();
        let ghost walk = self.vote.iter().remaining();
        let ghost all = walked(walk).map_values(
            |e: (Id, VotesView)| VotesOutputView::of(e.0, e.1),
        );
        proof {
            assert(all.take(0) =~= Seq::empty());
            reveal(Seq::filter);
        }
        for kv in it: self.vote.iter()
            invariant
                it.seq() == walk,
                all == walked(walk).map_values(|e: (Id, VotesView)| VotesOutputView::of(e.0, e.1)),
                views(out@) == all.take(it.index()).filter(about_evidence(evidence_id)),
        {
            let ghost seen = all.take(it.index());
            proof {
                assert(all.take(it.index() + 1) =~= seen.push(all[it.index()]));
                Seq::lemma_filter_push(seen, all[it.index()], about_evidence(evidence_id));
            }
            if evidence_id == kv.1.evidence_id {
                let ghost before = out@;
                out.push(VotesOutput::get_vote(*kv.0, kv.1));
                proof {
                    assert(views(out@) =~= views(before).push(all[it.index()]));
                }
            }
        }
        proof {
            lemma_walk_is_entries(self.vote@, walk);
            assert(all.take(all.len() as int) =~= all);
        }
        out
    }
}

} // verus!
