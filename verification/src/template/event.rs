//! Parameters, notifications and rejections of the single-proposal engine.

use crate::primitives::{AccountId, BlockNumber};
use crate::referendum::ReferendumIndex;
use crate::types::Vote;
use vstd::prelude::*;

verus! {

/// The parameters an engine is set up with. They never change afterwards.
#[derive(Clone, Copy, Debug, PartialEq, Eq, Structural)]
pub struct Config {
    /// Proposals can't be more than this length
    pub max_proposal_length: u32,
    /// How often (in blocks) new referenda are ran
    pub launch_period: BlockNumber,
    /// How long (in blocks) referenda allow votes for until they end
    pub voting_period: BlockNumber,
    /// Size of the proposal queue
    pub proposal_queue_size: u32,
}

impl Config {
    /// The engine needs a launch period to divide ticks by.
    pub open spec fn wf(self) -> bool {
        self.launch_period > 0
    }

    /// Tells whether the parameters are usable.
    pub fn is_valid(&self) -> (valid: bool)
        ensures
            valid == self.wf(),
    {
        self.launch_period > 0
    }
}

/// A notification. The caller passes it on; the engine waits for no answer.
#[derive(Clone, Debug, PartialEq, Eq)]
pub enum Event {
    /// A proposal was successfully submitted
    ProposalSubmitted(Vec<u8>, AccountId),
    /// A vote was successfully submitted
    VoteSubmitted(Vote, AccountId),
    /// Started a referendum
    ReferendumStarted(ReferendumIndex),
    /// Referendum ended
    ReferendumEnded(ReferendumIndex),
}

#[derive(Clone, Copy, Debug, PartialEq, Eq, Structural)]
pub enum Error {
    /// Proposal text is too long
    ProposalTooLong,
    /// Proposal queue is full
    ProposalQueueFull,
    /// No active referendum right now
    NoActiveReferendum,
    /// Overflow error
    Overflow,
    /// Tried to start a referendum but there were no proposals in the queue
    NoProposalsInQueue,
}

/// What one tick of the scheduler did: at most one referendum ends, then at
/// most one starts.
#[derive(Clone, Debug, PartialEq, Eq)]
pub struct TickEvents {
    /// `ReferendumEnded`, where the tick closed the open referendum.
    pub ended: Option<Event>,
    /// `ReferendumStarted`, where the tick opened a referendum.
    pub started: Option<Event>,
    /// Why the referendum that was due at this tick did not open, where one
    /// was due. The scheduler goes on regardless; the reason is for the
    /// caller's log.
    pub skipped: Option<Error>,
}

} // verus!
