//! What the engine reports: the notification of each successful operation and
//! the reason of each rejection.

use crate::primitives::AccountId;
use crate::referendum::{ReferendumIndex, SlotInfo};
use crate::types::Vote;
use vstd::prelude::*;

verus! {

/// A notification. The caller passes it on; the engine waits for no answer.
#[derive(Clone, Debug, PartialEq, Eq)]
pub enum Event {
    /// A voter has been registered successfully
    VoterRegistered,
    /// A proposal was successfully submitted
    ProposalSubmitted(Vec<u8>, AccountId),
    /// A vote was successfully submitted
    VoteSubmitted(Vec<(u32, Vote)>, AccountId),
    /// Started a referendum
    ReferendumStarted(ReferendumIndex, Vec<Vec<u8>>),
    /// Referendum ended
    ReferendumEnded(ReferendumIndex, Vec<SlotInfo>),
}

#[derive(Clone, Copy, Debug, PartialEq, Eq, Structural)]
pub enum Error {
    /// Proposal text is too long
    ProposalTooLong,
    /// Proposal queue is full
    ProposalQueueFull,
    /// No active referendum right now
    NoActiveReferendum,
    /// Overflow error
    Overflow,
    /// Tried to start a referendum but there were not enough proposals in the queue
    NotEnoughProposalsInQueue,
    /// User is not part of the voter group
    NotAVoter,
    /// Tried to vote more than the maximum
    TooManyVotes,
    /// Not enough points for the votes requested
    NotEnoughPoints,
    /// Voter has already been registered
    VoterAlreadyRegistered,
    /// Already voted
    AlreadyVoted,
    /// User does not have an identity
    NoIdentity,
    /// Missing votes for proposals in the referendum
    MissingVotes,
}

/// What one tick of the scheduler did: at most one referendum ends, then at
/// most one starts.
#[derive(Clone, Debug, PartialEq, Eq)]
pub struct TickEvents {
    /// `ReferendumEnded`, where the tick closed the open referendum.
    pub ended: Option<Event>,
    /// `ReferendumStarted`, where the tick opened a referendum.
    pub started: Option<Event>,
    /// Why the referendum that was due at this tick did not open, where one
    /// was due. The scheduler goes on regardless; the reason is for the
    /// caller's log.
    pub skipped: Option<Error>,
}

} // verus!
