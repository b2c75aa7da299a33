//! Tallies and the outcome state of a proposal slot.

use vstd::prelude::*;

verus! {

/// Direction of a vote.
#[derive(Clone, Copy, Debug, PartialEq, Eq, Structural)]
pub enum Vote {
    Aye,
    Nay,
}

/// Votes counted for and against one proposal.
#[derive(Clone, Copy, Debug, PartialEq, Eq, Structural)]
pub struct Tally {
    /// Number of "aye" votes
    pub aye_votes: u32,
    /// Number of "nay" votes
    pub nay_votes: u32,
}

impl Tally {
    /// The tally of a proposal nobody has voted on yet.
    pub open spec fn zero() -> Tally {
        Tally { aye_votes: 0, nay_votes: 0 }
    }

    /// The counter that votes in direction `vote` are added to.
    pub open spec fn counter(self, vote: Vote) -> u32 {
        match vote {
            Vote::Aye => self.aye_votes,
            Vote::Nay => self.nay_votes,
        }
    }

    /// Whether `amount` more votes in direction `vote` still fit the counter.
    pub open spec fn can_add(self, vote: Vote, amount: u32) -> bool {
        self.counter(vote) + amount <= u32::MAX
    }

    /// This tally with `amount` votes added in direction `vote`; meaningful
    /// where `can_add` holds.
    pub open spec fn plus(self, vote: Vote, amount: u32) -> Tally {
        match vote {
            Vote::Aye => Tally {
                aye_votes: (self.aye_votes + amount) as u32,
                nay_votes: self.nay_votes,
            },
            Vote::Nay => Tally {
                aye_votes: self.aye_votes,
                nay_votes: (self.nay_votes + amount) as u32,
            },
        }
    }

    /// Whether this tally approves its proposal.
    pub open spec fn approves(self) -> bool {
        self.aye_votes > self.nay_votes
    }

    /// A proposal is approved only by a strict majority of ayes: a tie rejects.
    pub fn result(&self) -> (approved: bool)
        ensures
            approved == self.approves(),
            approved == (self.aye_votes > self.nay_votes),
    {
        self.aye_votes > self.nay_votes
    }

    /// Adds `amount` votes in direction `vote`, or reports that the counter
    /// would overflow. The counter never wraps.
    pub fn checked_add(&self, vote: Vote, amount: u32) -> (sum: Option<Tally>)
        ensures
            sum is Some <==> self.can_add(vote, amount),
            sum matches Some(t) ==> t == self.plus(vote, amount),
    {
        match vote {
            Vote::Aye => match self.aye_votes.checked_add(amount) {
                Some(aye_votes) => Some(Tally { aye_votes, nay_votes: self.nay_votes }),
                None => None,
            },
            Vote::Nay => match self.nay_votes.checked_add(amount) {
                Some(nay_votes) => Some(Tally { aye_votes: self.aye_votes, nay_votes }),
                None => None,
            },
        }
    }
}

/// Counting votes moves the counter of their direction up by their number and
/// leaves the other counter alone: no counter ever goes down.
pub proof fn lemma_tally_only_grows(tally: Tally, vote: Vote, amount: u32)
    requires
        tally.can_add(vote, amount),
    ensures
        tally.plus(vote, amount).counter(vote) == tally.counter(vote) + amount,
        tally.plus(vote, amount).aye_votes >= tally.aye_votes,
        tally.plus(vote, amount).nay_votes >= tally.nay_votes,
        vote == Vote::Aye ==> tally.plus(vote, amount).nay_votes == tally.nay_votes,
        vote == Vote::Nay ==> tally.plus(vote, amount).aye_votes == tally.aye_votes,
{
}

impl Default for Tally {
    fn default() -> (tally: Tally)
        ensures
            tally == Tally::zero(),
    {
        Tally { aye_votes: 0, nay_votes: 0 }
    }
}

/// A proposal that is being voted on.
#[derive(Clone, Copy, Debug, PartialEq, Eq)]
pub struct OngoingProposalInfo<Hash> {
    /// Hash of the proposal
    pub proposal_hash: Hash,
    /// Tally of the votes
    pub tally: Tally,
}

/// The immutable outcome of a proposal whose referendum has closed.
#[derive(Clone, Copy, Debug, PartialEq, Eq)]
pub struct FinishedProposalInfo<BlockNumber> {
    pub approved: bool,
    pub end: BlockNumber,
}

/// Outcome state of one proposal slot: it only ever moves from `Ongoing` to
/// `Finished`.
#[derive(Clone, Copy, Debug, PartialEq, Eq)]
pub enum ProposalInfo<Hash, BlockNumber> {
    Ongoing(OngoingProposalInfo<Hash>),
    Finished(FinishedProposalInfo<BlockNumber>),
}

impl<Hash, BlockNumber> ProposalInfo<Hash, BlockNumber> {
    /// The tally of an ongoing proposal.
    pub open spec fn tally(self) -> Tally
        recommends
            self is Ongoing,
    {
        self->Ongoing_0.tally
    }

    /// What an ongoing proposal becomes when its referendum closes at `end`.
    pub open spec fn finished_at(self, end: BlockNumber) -> ProposalInfo<Hash, BlockNumber>
        recommends
            self is Ongoing,
    {
        ProposalInfo::Finished(FinishedProposalInfo { approved: self.tally().approves(), end })
    }

    /// An ongoing proposal with `amount` more votes in direction `vote`.
    pub open spec fn voted(self, vote: Vote, amount: u32) -> ProposalInfo<Hash, BlockNumber>
        recommends
            self is Ongoing,
    {
        ProposalInfo::Ongoing(
            OngoingProposalInfo {
                proposal_hash: self->Ongoing_0.proposal_hash,
                tally: self.tally().plus(vote, amount),
            },
        )
    }

    pub fn get_aye_votes(&self) -> (votes: u32)
        requires
            self is Ongoing,
        ensures
            votes == self.tally().aye_votes,
    {
        match self {
            ProposalInfo::Ongoing(ongoing_info) => ongoing_info.tally.aye_votes,
            ProposalInfo::Finished(_) => 0,
        }
    }

    pub fn get_nay_votes(&self) -> (votes: u32)
        requires
            self is Ongoing,
        ensures
            votes == self.tally().nay_votes,
    {
        match self {
            ProposalInfo::Ongoing(ongoing_info) => ongoing_info.tally.nay_votes,
            ProposalInfo::Finished(_) => 0,
        }
    }

    pub fn is_ongoing(&self) -> (ongoing: bool)
        ensures
            ongoing == (self is Ongoing),
    {
        match self {
            ProposalInfo::Ongoing(_) => true,
            ProposalInfo::Finished(_) => false,
        }
    }

    pub fn has_finished(&self) -> (finished: bool)
        ensures
            finished == (self is Finished),
    {
        match self {
            ProposalInfo::Ongoing(_) => false,
            ProposalInfo::Finished(_) => true,
        }
    }
}

} // verus!
