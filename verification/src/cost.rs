//! The quadratic price of votes: casting `n` votes on a proposal costs `n * n`
//! points.

use crate::primitives::Points;
use crate::types::Vote;
use vstd::prelude::*;

verus! {

/// The price in points of `votes` votes on one proposal.
pub open spec fn square(votes: int) -> int {
    votes * votes
}

/// The combined weight of a ballot: the sum of its amounts.
pub open spec fn total_weight(ballot: Seq<(u32, Vote)>) -> int
    decreases ballot.len(),
{
    if ballot.len() == 0 {
        0
    } else {
        total_weight(ballot.drop_last()) + ballot.last().0
    }
}

/// The price of a ballot: the sum of the squares of its amounts.
pub open spec fn total_cost(ballot: Seq<(u32, Vote)>) -> int
    decreases ballot.len(),
{
    if ballot.len() == 0 {
        0
    } else {
        total_cost(ballot.drop_last()) + square(ballot.last().0 as int)
    }
}

/// A ballot never costs more than the square of its combined weight, so a
/// balance that covers the square covers every slot's price.
pub proof fn lemma_cost_within_square_of_weight(ballot: Seq<(u32, Vote)>)
    ensures
        0 <= total_weight(ballot),
        0 <= total_cost(ballot) <= square(total_weight(ballot)),
    decreases ballot.len(),
{
    if ballot.len() > 0 {
        lemma_cost_within_square_of_weight(ballot.drop_last());
        let w = total_weight(ballot.drop_last());
        let a = ballot.last().0 as int;
        assert(0 <= a * a && w * w + a * a <= (w + a) * (w + a)) by (nonlinear_arith)
            requires
                0 <= w,
                0 <= a,
        ;
    }
}

/// The weight of a ballot is bounded by its length.
pub proof fn lemma_weight_bound(ballot: Seq<(u32, Vote)>)
    ensures
        0 <= total_weight(ballot) <= ballot.len() * u32::MAX,
    decreases ballot.len(),
{
    if ballot.len() > 0 {
        lemma_weight_bound(ballot.drop_last());
        assert((ballot.len() - 1) * u32::MAX + u32::MAX == ballot.len() * u32::MAX)
            by (nonlinear_arith);
    }
}

/// The leading part of a ballot costs no more than the whole.
pub proof fn lemma_cost_of_prefix(ballot: Seq<(u32, Vote)>, n: int)
    requires
        0 <= n <= ballot.len(),
    ensures
        0 <= total_cost(ballot.take(n)) <= total_cost(ballot),
    decreases ballot.len(),
{
    lemma_cost_within_square_of_weight(ballot.take(n));
    if n == ballot.len() {
        assert(ballot.take(n) =~= ballot);
    } else {
        lemma_cost_of_prefix(ballot.drop_last(), n);
        assert(ballot.drop_last().take(n) =~= ballot.take(n));
        let a = ballot.last().0 as int;
        assert(0 <= a * a) by (nonlinear_arith);
    }
}

/// Extending the leading part of a ballot by one vote adds that vote's price.
pub proof fn lemma_cost_step(ballot: Seq<(u32, Vote)>, n: int)
    requires
        0 <= n < ballot.len(),
    ensures
        total_cost(ballot.take(n + 1)) == total_cost(ballot.take(n)) + square(ballot[n].0 as int),
        total_weight(ballot.take(n + 1)) == total_weight(ballot.take(n)) + ballot[n].0,
{
    assert(ballot.take(n + 1).drop_last() =~= ballot.take(n));
}

/// The combined weight of a ballot.
pub fn intended_votes(ballot: &Vec<(u32, Vote)>) -> (total: u64)
    requires
        ballot.len() <= u32::MAX,
    ensures
        total == total_weight(ballot@),
{
    let mut total: u64 = 0;
    let mut i: usize = 0;
    while i < ballot.len()
        invariant
            i <= ballot.len() <= u32::MAX,
            total == total_weight(ballot@.take(i as int)),
        decreases ballot.len() - i,
    {
        proof {
            lemma_cost_step(ballot@, i as int);
            lemma_weight_bound(ballot@.take(i as int));
            assert(i * u32::MAX + u32::MAX <= u64::MAX) by (nonlinear_arith)
                requires
                    i < u32::MAX,
            ;
        }
        total = total + ballot[i].0 as u64;
        i += 1;
    }
    assert(ballot@.take(ballot.len() as int) =~= ballot@);
    total
}

/// Whether `balance` covers the quadratic gate on a ballot of combined weight
/// `weight`, decided without overflow.
pub fn covers(balance: Points, weight: u64) -> (enough: bool)
    ensures
        enough == (balance >= square(weight as int)),
{
    if weight > 0xffff {
        assert(weight * weight > u32::MAX) by (nonlinear_arith)
            requires
                weight > 0xffff,
        ;
        false
    } else {
        assert(weight * weight <= 0xffff * 0xffff) by (nonlinear_arith)
            requires
                weight <= 0xffff,
        ;
        balance as u64 >= weight * weight
    }
}

/// The price in points of `votes` votes, where it fits the points type.
pub fn price(votes: u32) -> (points: Option<Points>)
    ensures
        points is Some <==> square(votes as int) <= u32::MAX,
        points matches Some(p) ==> p == square(votes as int),
{
    votes.checked_mul(votes)
}

} // verus!
