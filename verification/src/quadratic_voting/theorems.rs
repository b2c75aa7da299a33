//! What holds of the engine whatever is asked of it, proved of the state
//! functions that the operations are specified by.

use crate::cost::{
    lemma_cost_of_prefix, lemma_cost_within_square_of_weight, square, total_cost, total_weight,
};
use crate::hashing::content_hashes;
use crate::primitives::{AccountId, BlockNumber};
use crate::quadratic_voting::event::Error;
use crate::quadratic_voting::state::PalletState;
use crate::queue::lemma_queue_stays_bounded;
use crate::referendum::{
    lemma_balloted, lemma_finished_wf, lemma_first_overflow, lemma_opened_wf,
};
use crate::types::{ProposalInfo, Vote};
use vstd::prelude::*;

verus! {

/// Registration succeeds exactly where the identity gate knows the account
/// and the account has no balance yet; the new balance is the square of the
/// maximum number of votes, and nobody else's balance changes.
pub proof fn lemma_registration(state: PalletState, has_identity: bool, account: AccountId)
    requires
        state.wf(),
    ensures
        state.registration_rejection(has_identity, account) is None <==> has_identity
            && !state.points.contains_key(account),
        state.registered(account).wf(),
        state.registered(account).points[account] == square(state.config.max_votes as int),
        forall|other: AccountId|
            other != account ==> state.registered(account).points.contains_key(other)
                == state.points.contains_key(other) && state.registered(account).points[other]
                == state.points[other],
{
}

/// An accepted proposal makes the queue exactly one longer, at its tail; the
/// queue never exceeds its capacity, and no queued proposal its length limit.
pub proof fn lemma_submission(state: PalletState, who: AccountId, proposal: Seq<u8>)
    requires
        state.wf(),
        state.proposal_rejection(who, proposal) is None,
    ensures
        state.proposed(proposal).wf(),
        state.proposed(proposal).queue.proposals.len() == state.queue.proposals.len() + 1,
        state.proposed(proposal).queue.proposals.len() <= state.config.proposal_queue_size,
        state.proposed(proposal).queue.proposals.last() == proposal,
        state.proposed(proposal).queue.proposals.drop_last() == state.queue.proposals,
{
    lemma_queue_stays_bounded(state.queue, proposal, 0);
    assert(state.proposed(proposal).queue.proposals.drop_last() =~= state.queue.proposals);
}

/// A tick opens a referendum only where it is a multiple of the launch
/// period and the queue holds a proposal for every slot. It then removes
/// exactly that many proposals from the head of the queue, and otherwise
/// leaves the queue as it is.
pub proof fn lemma_tick_opens(state: PalletState, tick: BlockNumber)
    requires
        state.wf(),
        state.closes_at(tick) ==> state.referenda.count() < u32::MAX,
    ensures
        state.ticked(tick).wf(),
        state.opens_at(tick) <==> tick as int % state.config.launch_period as int == 0
            && state.queue.proposals.len() >= state.config.proposals_per_referendum,
        state.opens_at(tick) ==> {
            &&& state.ticked(tick).referenda.active()
            &&& state.ticked(tick).referenda.ends_at == state.end_of_voting(tick)
            &&& state.ticked(tick).queue.proposals == state.queue.proposals.skip(
                state.config.proposals_per_referendum as int,
            )
            &&& state.ticked(tick).queue.proposals.len() == state.queue.proposals.len()
                - state.config.proposals_per_referendum
        },
        !state.opens_at(tick) ==> {
            &&& state.ticked(tick).queue == state.queue
            &&& state.ticked(tick).referenda.active() ==> state.referenda.active()
            &&& state.ticked(tick).referenda.active() ==> state.ticked(tick).referenda.current
                == state.referenda.current
        },
{
    let closed = if state.closes_at(tick) {
        state.ended()
    } else {
        state
    };
    if state.closes_at(tick) {
        lemma_finished_wf(state.referenda);
    }
    if closed.opens_at(tick) {
        let slots = state.config.proposals_per_referendum as int;
        lemma_queue_stays_bounded(closed.queue, Seq::empty(), slots);
        lemma_opened_wf(
            closed.referenda,
            closed.end_of_voting(tick),
            content_hashes(closed.queue.proposals, slots),
        );
    }
}

/// A tick closes the open referendum only where it is the tick recorded as
/// its end. Every slot then turns from ongoing to finished, approved exactly
/// where its ayes outnumber its nays: a tie rejects. The referendum counter
/// moves on by one, and by none on any other tick.
pub proof fn lemma_tick_closes(state: PalletState, tick: BlockNumber)
    requires
        state.wf(),
        state.closes_at(tick) ==> state.referenda.count() < u32::MAX,
    ensures
        state.closes_at(tick) <==> state.referenda.active() && tick == state.referenda.ends_at,
        state.closes_at(tick) ==> {
            &&& state.ticked(tick).referenda.count() == state.referenda.count() + 1
            &&& forall|s: int|
                0 <= s < state.config.proposals_per_referendum ==> {
                    &&& state.referenda.current->0[s] is Ongoing
                    &&& (#[trigger] state.ticked(tick).referenda.info(
                        state.referenda.count() as int,
                        s,
                    )) matches Some(ProposalInfo::Finished(outcome))
                    &&& outcome.end == tick
                    &&& outcome.approved == (state.referenda.current->0[s].tally().aye_votes
                        > state.referenda.current->0[s].tally().nay_votes)
                }
        },
        !state.closes_at(tick) ==> state.ticked(tick).referenda.closed == state.referenda.closed,
{
    if state.closes_at(tick) {
        lemma_finished_wf(state.referenda);
        assert forall|s: int| 0 <= s < state.config.proposals_per_referendum implies {
            &&& state.referenda.current->0[s] is Ongoing
            &&& (#[trigger] state.ticked(tick).referenda.info(state.referenda.count() as int, s))
                matches Some(ProposalInfo::Finished(outcome))
            &&& outcome.end == tick
            &&& outcome.approved == (state.referenda.current->0[s].tally().aye_votes
                > state.referenda.current->0[s].tally().nay_votes)
        } by {
            assert(state.ended().referenda.info(state.referenda.count() as int, s) == Some(
                state.referenda.current->0[s].finished_at(state.referenda.ends_at),
            ));
        }
    }
}

/// Quadratic cost. A ballot is turned away before any vote is counted where
/// the balance is less than the square of its combined weight. A ballot that
/// is counted in full costs the sum of the squares of its amounts, which the
/// balance covers; one that is counted in part costs that sum over the slots
/// counted.
pub proof fn lemma_quadratic_cost(
    state: PalletState,
    who: AccountId,
    ballot: Seq<(u32, Vote)>,
    n: int,
)
    requires
        state.wf(),
        state.points.contains_key(who),
        state.referenda.active(),
        state.points[who] >= state.config.budget(),
        ballot.len() == state.config.proposals_per_referendum,
        0 <= n <= ballot.len(),
    ensures
        state.points[who] < square(total_weight(ballot)) ==> state.ballot_rejection(who, ballot)
            == Some(Error::NotEnoughPoints),
        state.points[who] >= square(total_weight(ballot)) ==> {
            &&& state.ballot_rejection(who, ballot) is None
            &&& 0 <= total_cost(ballot.take(n)) <= total_cost(ballot) <= state.points[who]
            &&& state.balloted(who, ballot, n).points[who] == state.points[who] - total_cost(
                ballot.take(n),
            )
            &&& state.balloted(who, ballot, ballot.len() as int).points[who] == state.points[who]
                - total_cost(ballot)
        },
        forall|other: AccountId|
            other != who ==> state.balloted(who, ballot, n).points.contains_key(other)
                == state.points.contains_key(other) && state.balloted(who, ballot, n).points[other]
                == state.points[other],
{
    lemma_cost_of_prefix(ballot, n);
    lemma_cost_within_square_of_weight(ballot);
    assert(ballot.take(ballot.len() as int) =~= ballot);
}

/// Outcomes are final: once a slot is finished, its entry is the same entry
/// after a registration, a submission, a ballot counted in full or in part,
/// and a tick.
pub proof fn lemma_outcomes_are_final(
    state: PalletState,
    account: AccountId,
    proposal: Seq<u8>,
    ballot: Seq<(u32, Vote)>,
    n: int,
    tick: BlockNumber,
)
    requires
        state.wf(),
    ensures
        state.referenda.outcomes_kept_by(state.registered(account).referenda),
        state.referenda.outcomes_kept_by(state.proposed(proposal).referenda),
        state.referenda.active() && 0 <= n <= state.config.proposals_per_referendum
            ==> state.referenda.outcomes_kept_by(state.balloted(account, ballot, n).referenda),
        (state.closes_at(tick) ==> state.referenda.count() < u32::MAX)
            ==> state.referenda.outcomes_kept_by(state.ticked(tick).referenda),
{
    if state.referenda.active() && 0 <= n <= state.config.proposals_per_referendum {
        lemma_balloted(state.referenda, ballot, n);
    }
    if state.closes_at(tick) && state.referenda.count() < u32::MAX {
        lemma_finished_wf(state.referenda);
    }
}

/// Only a tick opens or closes a referendum: a registration, a submission
/// and a ballot leave the closed referenda, the open referendum's index and
/// end, and whether one is open as they were. A ballot changes no more of the
/// open referendum than the tallies of the slots it is counted on.
pub proof fn lemma_only_ticks_schedule(
    state: PalletState,
    account: AccountId,
    proposal: Seq<u8>,
    ballot: Seq<(u32, Vote)>,
    n: int,
)
    requires
        state.wf(),
    ensures
        state.registered(account).referenda == state.referenda,
        state.registered(account).queue == state.queue,
        state.proposed(proposal).referenda == state.referenda,
        state.proposed(proposal).points == state.points,
        state.balloted(account, ballot, n).queue == state.queue,
        state.balloted(account, ballot, n).referenda.closed == state.referenda.closed,
        state.balloted(account, ballot, n).referenda.ends_at == state.referenda.ends_at,
        state.referenda.active() ==> state.balloted(account, ballot, n).referenda.active(),
        state.referenda.active() ==> forall|s: int|
            0 <= s < state.config.proposals_per_referendum ==> #[trigger] state.balloted(
                account,
                ballot,
                n,
            ).referenda.current->0[s] == if s < n {
                state.referenda.current->0[s].voted(ballot[s].1, ballot[s].0)
            } else {
                state.referenda.current->0[s]
            },
{
}

/// A ballot counted in part or in full leaves the engine well formed, and
/// counting stops within the slots of the referendum.
pub proof fn lemma_ballot_keeps_wf(state: PalletState, who: AccountId, ballot: Seq<(u32, Vote)>)
    requires
        state.wf(),
        state.ballot_rejection(who, ballot) is None,
    ensures
        0 <= state.counted_slots(ballot) <= state.config.proposals_per_referendum,
        state.balloted(who, ballot, state.counted_slots(ballot)).wf(),
{
    lemma_first_overflow(state.referenda.current->0, ballot, 0);
    lemma_balloted(state.referenda, ballot, state.counted_slots(ballot));
}

} // verus!
