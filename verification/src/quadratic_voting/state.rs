//! The engine as a mathematical value, and each operation as a function from
//! the state before it to the state after it.

use crate::cost::{square, total_cost, total_weight};
use crate::hashing::content_hashes;
use crate::primitives::{AccountId, BlockNumber, Points};
use crate::quadratic_voting::config::Config;
use crate::quadratic_voting::event::Error;
use crate::queue::QueueState;
use crate::referendum::{first_overflow, ReferendumState};
use crate::types::Vote;
use vstd::prelude::*;

verus! {

/// Everything the engine holds.
pub struct PalletState {
    /// The parameters the engine was set up with.
    pub config: Config,
    /// Proposals that are queued to be used in the next referendum.
    pub queue: QueueState,
    /// The points of every registered voter.
    pub points: Map<AccountId, Points>,
    /// Every finished and ongoing referendum.
    pub referenda: ReferendumState,
}

impl PalletState {
    /// The engine right after set-up: nothing queued, nobody registered, no
    /// referendum yet.
    pub open spec fn initial(config: Config) -> PalletState {
        PalletState {
            config,
            queue: QueueState {
                max_proposal_length: config.max_proposal_length as nat,
                capacity: config.proposal_queue_size as nat,
                proposals: Seq::empty(),
            },
            points: Map::empty(),
            referenda: ReferendumState::empty(config.proposals_per_referendum as nat),
        }
    }

    /// The parts are well formed and follow the parameters.
    pub open spec fn wf(self) -> bool {
        &&& self.config.wf()
        &&& self.queue.wf()
        &&& self.queue.max_proposal_length == self.config.max_proposal_length
        &&& self.queue.capacity == self.config.proposal_queue_size
        &&& self.referenda.wf()
        &&& self.referenda.slots == self.config.proposals_per_referendum
    }

    /// Why `account` cannot be registered as a voter, if it cannot.
    pub open spec fn registration_rejection(self, has_identity: bool, account: AccountId) -> Option<
        Error,
    > {
        if !has_identity {
            Some(Error::NoIdentity)
        } else if self.points.contains_key(account) {
            Some(Error::VoterAlreadyRegistered)
        } else {
            None
        }
    }

    /// The engine after `account` is registered with the full budget.
    pub open spec fn registered(self, account: AccountId) -> PalletState {
        PalletState { points: self.points.insert(account, self.config.budget() as Points), ..self }
    }

    /// Why a proposal of `who` with body `proposal` is rejected, if it is.
    pub open spec fn proposal_rejection(self, who: AccountId, proposal: Seq<u8>) -> Option<Error> {
        if !self.points.contains_key(who) {
            Some(Error::NotAVoter)
        } else if !self.queue.fits(proposal) {
            Some(Error::ProposalTooLong)
        } else if self.queue.is_full() {
            Some(Error::ProposalQueueFull)
        } else {
            None
        }
    }

    /// The engine after `proposal` joins the queue.
    pub open spec fn proposed(self, proposal: Seq<u8>) -> PalletState {
        PalletState { queue: self.queue.appended(proposal), ..self }
    }

    /// Why a ballot of `who` is rejected before any vote is counted, if it
    /// is. A voter whose balance is under the full budget counts as having
    /// voted.
    pub open spec fn ballot_rejection(self, who: AccountId, ballot: Seq<(u32, Vote)>) -> Option<
        Error,
    > {
        if !self.points.contains_key(who) {
            Some(Error::NotAVoter)
        } else if !self.referenda.active() {
            Some(Error::NoActiveReferendum)
        } else if self.points[who] < self.config.budget() {
            Some(Error::AlreadyVoted)
        } else if ballot.len() != self.config.proposals_per_referendum {
            Some(Error::MissingVotes)
        } else if self.points[who] < square(total_weight(ballot)) {
            Some(Error::NotEnoughPoints)
        } else {
            None
        }
    }

    /// The number of leading slots on which an admitted ballot is counted:
    /// counting stops at the first slot whose counter would overflow.
    pub open spec fn counted_slots(self, ballot: Seq<(u32, Vote)>) -> int
        recommends
            self.referenda.active(),
    {
        first_overflow(self.referenda.current->0, ballot, 0)
    }

    /// The engine after the votes that `ballot` has for the first `n` slots
    /// are counted and `who` has paid the price of each.
    pub open spec fn balloted(self, who: AccountId, ballot: Seq<(u32, Vote)>, n: int) -> PalletState
        recommends
            self.referenda.active(),
            self.points.contains_key(who),
    {
        PalletState {
            points: self.points.insert(
                who,
                (self.points[who] - total_cost(ballot.take(n))) as Points,
            ),
            referenda: self.referenda.balloted(ballot, n),
            ..self
        }
    }

    /// Whether the tick `tick` closes the open referendum.
    pub open spec fn closes_at(self, tick: BlockNumber) -> bool {
        self.referenda.active() && tick == self.referenda.ends_at
    }

    /// The engine after the open referendum closes.
    pub open spec fn ended(self) -> PalletState
        recommends
            self.referenda.active(),
    {
        PalletState { referenda: self.referenda.finished(), ..self }
    }

    /// Whether a referendum is due at the tick `tick`.
    pub open spec fn launches_at(self, tick: BlockNumber) -> bool {
        tick as int % self.config.launch_period as int == 0
    }

    /// Whether the queue holds enough proposals for a referendum.
    pub open spec fn can_start(self) -> bool {
        self.queue.proposals.len() >= self.config.proposals_per_referendum
    }

    /// Whether the tick `tick` opens a referendum.
    pub open spec fn opens_at(self, tick: BlockNumber) -> bool {
        self.launches_at(tick) && self.can_start()
    }

    /// The tick at which a referendum that opens at `tick` closes: the voting
    /// period later, or at the last tick there is.
    pub open spec fn end_of_voting(self, tick: BlockNumber) -> BlockNumber {
        if tick + self.config.voting_period > u64::MAX {
            u64::MAX
        } else {
            (tick + self.config.voting_period) as BlockNumber
        }
    }

    /// The engine after a referendum opens at `tick` on the oldest queued
    /// proposals, one per slot, in the order they were queued.
    pub open spec fn started(self, tick: BlockNumber) -> PalletState
        recommends
            self.can_start(),
    {
        PalletState {
            queue: self.queue.without_front(self.config.proposals_per_referendum as int),
            referenda: self.referenda.opened(
                self.end_of_voting(tick),
                content_hashes(self.queue.proposals, self.config.proposals_per_referendum as int),
            ),
            ..self
        }
    }

    /// The engine after the tick `tick`: first the open referendum closes if
    /// it ends now, then a referendum opens if one is due and the queue can
    /// fill it.
    pub open spec fn ticked(self, tick: BlockNumber) -> PalletState {
        let closed = if self.closes_at(tick) {
            self.ended()
        } else {
            self
        };
        if closed.opens_at(tick) {
            closed.started(tick)
        } else {
            closed
        }
    }
}

} // verus!
