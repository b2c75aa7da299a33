//! The single-proposal variant of the governance engine: every referendum
//! decides one proposal, and a vote has weight one.

pub mod event;
pub mod pallet;
pub mod state;
pub mod theorems;

pub use crate::referendum::ReferendumIndex;
pub use crate::types::{FinishedProposalInfo, OngoingProposalInfo, ProposalInfo, Vote};
pub use event::{Config, Error, Event, TickEvents};
pub use pallet::{Pallet, ProposalIndex};
pub use state::PalletState;
