//! The points ledger: the remaining vote points of every registered voter.

use crate::cost::{covers, square};
use crate::primitives::{AccountId, Points};
use std::collections::HashMap;
use vstd::prelude::*;

verus! {

broadcast use vstd::std_specs::hash::group_hash_axioms;

/// Balances of vote points. A participant has an entry exactly when
/// registered as a voter; points only ever leave an entry.
pub struct PointsLedger {
    points: HashMap<AccountId, Points>,
}

impl View for PointsLedger {
    type V = Map<AccountId, Points>;

    closed spec fn view(&self) -> Map<AccountId, Points> {
        self.points@
    }
}

impl PointsLedger {
    /// A ledger without voters.
    pub fn new() -> (ledger: PointsLedger)
        ensures
            ledger@ == Map::<AccountId, Points>::empty(),
    {
        PointsLedger { points: HashMap::new() }
    }

    /// The balance of `account`, if it is a voter.
    pub fn voter_points(&self, account: &AccountId) -> (balance: Option<Points>)
        ensures
            balance is Some <==> self@.contains_key(*account),
            balance matches Some(b) ==> b == self@[*account],
    {
        match self.points.get(account) {
            Some(balance) => Some(*balance),
            None => None,
        }
    }

    /// Whether `account` is registered as a voter.
    pub fn is_a_voter(&self, account: &AccountId) -> (registered: bool)
        ensures
            registered == self@.contains_key(*account),
    {
        self.points.contains_key(account)
    }

    /// Opens the entry of `account` with `budget` points.
    pub fn register(&mut self, account: AccountId, budget: Points)
        requires
            !old(self)@.contains_key(account),
        ensures
            final(self)@ == old(self)@.insert(account, budget),
    {
        self.points.insert(account, budget);
    }

    /// Whether the balance of `account` covers the square of
    /// `intended_votes`, the combined weight of a ballot.
    pub fn has_enough_points(&self, account: &AccountId, intended_votes: u64) -> (enough: bool)
        requires
            self@.contains_key(*account),
        ensures
            enough == (self@[*account] >= square(intended_votes as int)),
    {
        match self.points.get(account) {
            Some(points_available) => covers(*points_available, intended_votes),
            None => false,
        }
    }

    /// Debits `account` by the price of `votes` votes on one proposal.
    pub fn take_points_from_voter(&mut self, account: &AccountId, votes: u32)
        requires
            old(self)@.contains_key(*account),
            square(votes as int) <= old(self)@[*account],
        ensures
            final(self)@ == old(self)@.insert(
                *account,
                (old(self)@[*account] - square(votes as int)) as Points,
            ),
    {
        let available_points: Points = match self.points.get(account) {
            Some(balance) => *balance,
            None => 0,
        };
        assert(votes * votes == square(votes as int));
        self.points.insert(*account, available_points - votes * votes);
    }

    /// Whether `account` has spent points: a balance under the full budget
    /// `max_votes * max_votes` is taken to mean that it has voted.
    pub fn already_voted(&self, account: &AccountId, max_votes: u32) -> (voted: bool)
        requires
            self@.contains_key(*account),
            square(max_votes as int) <= u32::MAX,
        ensures
            voted == (self@[*account] < square(max_votes as int)),
    {
        match self.points.get(account) {
            Some(available_points) => *available_points < max_votes * max_votes,
            None => false,
        }
    }
}

} // verus!
