//! Quadratic-voting governance: proposals are queued, batched into periodic
//! referenda, voted on against a per-voter points budget, and resolved to an
//! immutable outcome.
//!
//! The engines:
//! - [`quadratic_voting`]: registered voters, referenda of several proposals,
//!   votes at a quadratic price;
//! - [`template`]: the single-proposal variant, where a vote has weight one;
//! - [`basic_identity`]: a registry of identities, which the voting engine
//!   consults through [`primitives::IdentityInterface`].
//!
//! Their parts:
//! - [`queue`]: the bounded queue of proposals;
//! - [`ledger`]: the points of the voters;
//! - [`referendum`]: the store of finished and ongoing referenda;
//! - [`cost`]: the arithmetic of the quadratic price;
//! - [`hashing`]: the content hash of a proposal;
//! - [`types`]: tallies and the outcome state of a proposal.
//!
//! Every engine is specified by a mathematical state and one function per
//! operation from the state before to the state after; what holds of all
//! states and operations is proved of those functions.

pub mod basic_identity;
pub mod cost;
pub mod hashing;
pub mod ledger;
pub mod primitives;
pub mod quadratic_voting;
pub mod queue;
pub mod referendum;
pub mod template;
pub mod types;
