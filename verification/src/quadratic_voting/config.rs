//! The policy constants of a quadratic-voting engine.

use crate::cost::square;
use crate::primitives::{BlockNumber, Points};
use vstd::prelude::*;

verus! {

/// The parameters an engine is set up with. They never change afterwards.
#[derive(Clone, Copy, Debug, PartialEq, Eq, Structural)]
pub struct Config {
    /// Proposals can't be more than this length
    pub max_proposal_length: u32,
    /// Size of the proposal queue
    pub proposal_queue_size: u32,
    /// How often (in blocks) new referenda are ran
    pub launch_period: BlockNumber,
    /// How long (in blocks) referenda allow votes for until they end.
    /// Needs to be lower than `launch_period` to work well
    pub voting_period: BlockNumber,
    /// Number of proposals to be voted per referendum
    pub proposals_per_referendum: u32,
    /// Maximum votes a voter can use on any proposal in a referendum
    pub max_votes: u32,
}

impl Config {
    /// What the engine needs of its parameters: a launch period to divide
    /// ticks by, and a voter budget that fits the points type. That the
    /// launch period exceeds the voting period is up to the deployment.
    pub open spec fn wf(self) -> bool {
        &&& self.launch_period > 0
        &&& square(self.max_votes as int) <= u32::MAX
    }

    /// The points a voter starts with: the price of `max_votes` votes on one
    /// proposal.
    pub open spec fn budget(self) -> int {
        square(self.max_votes as int)
    }

    /// Tells whether the parameters are usable.
    pub fn is_valid(&self) -> (valid: bool)
        ensures
            valid == self.wf(),
    {
        self.launch_period > 0 && self.max_votes.checked_mul(self.max_votes).is_some()
    }

    /// The points a voter starts with.
    pub fn voter_budget(&self) -> (budget: Points)
        requires
            self.wf(),
        ensures
            budget == self.budget(),
    {
        self.max_votes * self.max_votes
    }
}

} // verus!
