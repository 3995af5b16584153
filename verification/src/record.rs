//! The records that the store keeps, the records that it hands out, and the
//! mathematical view of each.

use ink_prelude::string::String;
use vstd::prelude::*;

verus! {

/// Identifier of a record. Each collection assigns its own, so a voter and a
/// vote may carry the same number.
pub type Id = u32;

/// An amount of stake or credit. The store keeps it and never computes on it.
pub type Balance = u128;

/// Why an update or a delete was refused.
#[derive(Debug, PartialEq, Eq, Copy, Clone, Structural)]
pub enum Error {
    /// No voter record is stored under the given identifier.
    VoterNotFound,
    /// No vote record is stored under the given identifier.
    VoteNotFound,
}

/// A party's registered stake and remaining voting credit for a case.
#[derive(Debug)]
pub struct Voter {
    pub case_id: Id,
    pub voter: String,
    pub amount_hold: Balance,
    pub vote_credit: Balance,
}

/// One party's ballot on a piece of evidence within a case.
#[derive(Debug)]
pub struct Votes {
    pub case_id: Id,
    pub evidence_id: Id,
    pub voter: String,
    pub yes_credit: u8,
    pub no_credit: u8,
    pub distribution_reward: u8,
}

/// A voter record as the store hands it out: the record together with the
/// identifier it is stored under.
#[derive(Debug)]
pub struct VoterOutput {
    pub voter_id: Id,
    pub case_id: Id,
    pub voter: String,
    pub amount_hold: Balance,
    pub vote_credit: Balance,
}

/// A vote record as the store hands it out: the record together with the
/// identifier it is stored under.
#[derive(Debug)]
pub struct VotesOutput {
    pub vote_id: Id,
    pub case_id: Id,
    pub evidence_id: Id,
    pub voter: String,
    pub yes_credit: u8,
    pub no_credit: u8,
    pub distribution_reward: u8,
}

/// What a [`Voter`] holds, with the party's name as a sequence of characters.
#[verifier::ext_equal]
pub struct VoterView {
    pub case_id: Id,
    pub voter: Seq<char>,
    pub amount_hold: Balance,
    pub vote_credit: Balance,
}

/// What a [`Votes`] holds, with the party's name as a sequence of characters.
#[verifier::ext_equal]
pub struct VotesView {
    pub case_id: Id,
    pub evidence_id: Id,
    pub voter: Seq<char>,
    pub yes_credit: u8,
    pub no_credit: u8,
    pub distribution_reward: u8,
}

/// What a [`VoterOutput`] holds.
#[verifier::ext_equal]
pub struct VoterOutputView {
    pub voter_id: Id,
    pub case_id: Id,
    pub voter: Seq<char>,
    pub amount_hold: Balance,
    pub vote_credit: Balance,
}

/// What a [`VotesOutput`] holds.
#[verifier::ext_equal]
pub struct VotesOutputView {
    pub vote_id: Id,
    pub case_id: Id,
    pub evidence_id: Id,
    pub voter: Seq<char>,
    pub yes_credit: u8,
    pub no_credit: u8,
    pub distribution_reward: u8,
}

impl View for Voter {
    type V = VoterView;

    open spec fn view(&self) -> VoterView {
        VoterView {
            case_id: self.case_id,
            voter: self.voter@,
            amount_hold: self.amount_hold,
            vote_credit: self.vote_credit,
        }
    }
}

impl View for Votes {
    type V = VotesView;

    open spec fn view(&self) -> VotesView {
        VotesView {
            case_id: self.case_id,
            evidence_id: self.evidence_id,
            voter: self.voter@,
            yes_credit: self.yes_credit,
            no_credit: self.no_credit,
            distribution_reward: self.distribution_reward,
        }
    }
}

impl View for VoterOutput {
    type V = VoterOutputView;

    open spec fn view(&self) -> VoterOutputView {
        VoterOutputView {
            voter_id: self.voter_id,
            case_id: self.case_id,
            voter: self.voter@,
            amount_hold: self.amount_hold,
            vote_credit: self.vote_credit,
        }
    }
}

impl View for VotesOutput {
    type V = VotesOutputView;

    open spec fn view(&self) -> VotesOutputView {
        VotesOutputView {
            vote_id: self.vote_id,
            case_id: self.case_id,
            evidence_id: self.evidence_id,
            voter: self.voter@,
            yes_credit: self.yes_credit,
            no_credit: self.no_credit,
            distribution_reward: self.distribution_reward,
        }
    }
}

impl VoterOutputView {
    /// The record `voter` as handed out under the identifier `voter_id`:
    /// every field of the record, unchanged, and the identifier beside them.
    pub open spec fn of(voter_id: Id, voter: VoterView) -> VoterOutputView {
        VoterOutputView {
            voter_id,
            case_id: voter.case_id,
            voter: voter.voter,
            amount_hold: voter.amount_hold,
            vote_credit: voter.vote_credit,
        }
    }

    /// The stored record that this output was made from.
    pub open spec fn record(self) -> VoterView {
        VoterView {
            case_id: self.case_id,
            voter: self.voter,
            amount_hold: self.amount_hold,
            vote_credit: self.vote_credit,
        }
    }
}

impl VotesOutputView {
    /// The record `vote` as handed out under the identifier `vote_id`:
    /// every field of the record, unchanged, and the identifier beside them.
    pub open spec fn of(vote_id: Id, vote: VotesView) -> VotesOutputView {
        VotesOutputView {
            vote_id,
            case_id: vote.case_id,
            evidence_id: vote.evidence_id,
            voter: vote.voter,
            yes_credit: vote.yes_credit,
            no_credit: vote.no_credit,
            distribution_reward: vote.distribution_reward,
        }
    }

    /// The stored record that this output was made from.
    pub open spec fn record(self) -> VotesView {
        VotesView {
            case_id: self.case_id,
            evidence_id: self.evidence_id,
            voter: self.voter,
            yes_credit: self.yes_credit,
            no_credit: self.no_credit,
            distribution_reward: self.distribution_reward,
        }
    }
}

impl VoterOutput {
    /// Hands out a copy of `voter` together with the identifier it is stored
    /// under.
    pub fn get_voter(voter_id: Id, voter: &Voter) -> (out: VoterOutput)
        ensures
            out@ == VoterOutputView::of(voter_id, voter@),
    {
        VoterOutput {
            voter_id,
            case_id: voter.case_id,
            voter: voter.voter.clone(),
            amount_hold: voter.amount_hold,
            vote_credit: voter.vote_credit,
        }
    }
}

impl VotesOutput {
    /// Hands out a copy of `vote` together with the identifier it is stored
    /// under.
    pub fn get_vote(vote_id: Id, vote: &Votes) -> (out: VotesOutput)
        ensures
            out@ == VotesOutputView::of(vote_id, vote@),
    {
        VotesOutput {
            vote_id,
            case_id: vote.case_id,
            evidence_id: vote.evidence_id,
            voter: vote.voter.clone(),
            yes_credit: vote.yes_credit,
            no_credit: vote.no_credit,
            distribution_reward: vote.distribution_reward,
        }
    }
}

/// The views of the records in `s`, in the same order.
pub open spec fn views<T: View>(s: Seq<T>) -> Seq<T::V> {
    s.map_values(|r: T| r@)
}

/// The views of the records in `m`, under the same identifiers.
pub open spec fn record_views<T: View>(m: Map<Id, T>) -> Map<Id, T::V> {
    m.map_values(|r: T| r@)
}

/// A map of records and the map of their views have the same identifiers,
/// and under each the view of the same record.
pub proof fn lemma_record_views<T: View>(m: Map<Id, T>)
    ensures
        record_views(m).dom() == m.dom(),
        forall|id: Id| #[trigger] m.contains_key(id) ==> record_views(m)[id] == m[id]@,
        m.dom().finite() ==> record_views(m).dom().finite() && record_views(m).len() == m.len(),
{
    assert(record_views(m).dom() =~= m.dom());
}

} // verus!
