//! The quadratic-voting governance engine: registered voters queue proposals,
//! a scheduler batches them into periodic referenda, and votes are paid for
//! out of a points budget at a price that grows with the square of their
//! number.

pub mod config;
pub mod event;
pub mod genesis;
pub mod pallet;
pub mod state;
pub mod theorems;

pub use crate::referendum::{ProposalIndex, ReferendumIndex};
pub use crate::types::{FinishedProposalInfo, OngoingProposalInfo, ProposalInfo, Vote};
pub use config::Config;
pub use event::{Error, Event, TickEvents};
pub use genesis::GenesisConfig;
pub use pallet::Pallet;
pub use state::PalletState;
