//! The single-proposal engine as a mathematical value, and each operation as
//! a function from the state before it to the state after it.

use crate::hashing::content_hashes;
use crate::primitives::BlockNumber;
use crate::queue::QueueState;
use crate::referendum::ReferendumState;
use crate::template::event::{Config, Error};
use crate::types::Vote;
use vstd::prelude::*;

verus! {

/// Everything the engine holds.
pub struct PalletState {
    /// The parameters the engine was set up with.
    pub config: Config,
    /// Proposals that are queued to be used in the next referendum.
    pub queue: QueueState,
    /// Every finished and ongoing referendum, of one slot each.
    pub referenda: ReferendumState,
}

impl PalletState {
    /// The engine right after set-up: nothing queued, no referendum yet.
    pub open spec fn initial(config: Config) -> PalletState {
        PalletState {
            config,
            queue: QueueState {
                max_proposal_length: config.max_proposal_length as nat,
                capacity: config.proposal_queue_size as nat,
                proposals: Seq::empty(),
            },
            referenda: ReferendumState::empty(1),
        }
    }

    /// The parts are well formed and follow the parameters.
    pub open spec fn wf(self) -> bool {
        &&& self.config.wf()
        &&& self.queue.wf()
        &&& self.queue.max_proposal_length == self.config.max_proposal_length
        &&& self.queue.capacity == self.config.proposal_queue_size
        &&& self.referenda.wf()
        &&& self.referenda.slots == 1
    }

    /// Why a proposal with body `proposal` is rejected, if it is.
    pub open spec fn proposal_rejection(self, proposal: Seq<u8>) -> Option<Error> {
        if !self.queue.fits(proposal) {
            Some(Error::ProposalTooLong)
        } else if self.queue.is_full() {
            Some(Error::ProposalQueueFull)
        } else {
            None
        }
    }

    /// The engine after `proposal` joins the queue.
    pub open spec fn proposed(self, proposal: Seq<u8>) -> PalletState {
        PalletState { queue: self.queue.appended(proposal), ..self }
    }

    /// Why one vote in direction `vote` is rejected, if it is.
    pub open spec fn vote_rejection(self, vote: Vote) -> Option<Error> {
        if !self.referenda.active() {
            Some(Error::NoActiveReferendum)
        } else if !self.referenda.current->0[0].tally().can_add(vote, 1) {
            Some(Error::Overflow)
        } else {
            None
        }
    }

    /// The engine after one vote in direction `vote` is counted.
    pub open spec fn voted(self, vote: Vote) -> PalletState
        recommends
            self.referenda.active(),
    {
        PalletState { referenda: self.referenda.voted(0, vote, 1), ..self }
    }

    /// Whether the tick `tick` closes the open referendum.
    pub open spec fn closes_at(self, tick: BlockNumber) -> bool {
        self.referenda.active() && tick == self.referenda.ends_at
    }

    /// The engine after the open referendum closes.
    pub open spec fn ended(self) -> PalletState
        recommends
            self.referenda.active(),
    {
        PalletState { referenda: self.referenda.finished(), ..self }
    }

    /// Whether a referendum is due at the tick `tick`.
    pub open spec fn launches_at(self, tick: BlockNumber) -> bool {
        tick as int % self.config.launch_period as int == 0
    }

    /// Whether the queue holds a proposal for a referendum.
    pub open spec fn can_start(self) -> bool {
        self.queue.proposals.len() > 0
    }

    /// Whether the tick `tick` opens a referendum.
    pub open spec fn opens_at(self, tick: BlockNumber) -> bool {
        self.launches_at(tick) && self.can_start()
    }

    /// The tick at which a referendum that opens at `tick` closes: the voting
    /// period later, or at the last tick there is.
    pub open spec fn end_of_voting(self, tick: BlockNumber) -> BlockNumber {
        if tick + self.config.voting_period > u64::MAX {
            u64::MAX
        } else {
            (tick + self.config.voting_period) as BlockNumber
        }
    }

    /// The engine after a referendum opens at `tick` on the oldest queued
    /// proposal.
    pub open spec fn started(self, tick: BlockNumber) -> PalletState
        recommends
            self.can_start(),
    {
        PalletState {
            queue: self.queue.without_front(1),
            referenda: self.referenda.opened(
                self.end_of_voting(tick),
                content_hashes(self.queue.proposals, 1),
            ),
            ..self
        }
    }

    /// The engine after the tick `tick`: first the open referendum closes if
    /// it ends now, then a referendum opens if one is due and a proposal is
    /// queued.
    pub open spec fn ticked(self, tick: BlockNumber) -> PalletState {
        let closed = if self.closes_at(tick) {
            self.ended()
        } else {
            self
        };
        if closed.opens_at(tick) {
            closed.started(tick)
        } else {
            closed
        }
    }
}

} // verus!
