//! What holds of the single-proposal engine whatever is asked of it, proved
//! of the state functions that the operations are specified by.

use crate::hashing::content_hashes;
use crate::primitives::BlockNumber;
use crate::queue::lemma_queue_stays_bounded;
use crate::referendum::{lemma_finished_wf, lemma_opened_wf};
use crate::template::state::PalletState;
use crate::types::{ProposalInfo, Vote};
use vstd::prelude::*;

verus! {

/// An accepted proposal makes the queue exactly one longer, at its tail, and
/// the queue never exceeds its capacity.
pub proof fn lemma_submission(state: PalletState, proposal: Seq<u8>)
    requires
        state.wf(),
        state.proposal_rejection(proposal) is None,
    ensures
        state.proposed(proposal).wf(),
        state.proposed(proposal).queue.proposals.len() == state.queue.proposals.len() + 1,
        state.proposed(proposal).queue.proposals.len() <= state.config.proposal_queue_size,
        state.proposed(proposal).queue.proposals.last() == proposal,
        state.proposed(proposal).queue.proposals.drop_last() == state.queue.proposals,
{
    lemma_queue_stays_bounded(state.queue, proposal, 0);
    assert(state.proposed(proposal).queue.proposals.drop_last() =~= state.queue.proposals);
}

/// One vote moves one counter of the open referendum by one and nothing
/// else.
pub proof fn lemma_vote(state: PalletState, vote: Vote)
    requires
        state.wf(),
        state.vote_rejection(vote) is None,
    ensures
        state.voted(vote).wf(),
        state.voted(vote).referenda.current->0[0].tally().counter(vote)
            == state.referenda.current->0[0].tally().counter(vote) + 1,
        state.voted(vote).referenda.closed == state.referenda.closed,
        state.voted(vote).queue == state.queue,
{
}

/// A tick closes the open referendum only where it is the tick recorded as
/// its end, with approval exactly where the ayes outnumber the nays, and
/// opens one only where it is a multiple of the launch period and a proposal
/// is queued: the oldest, which then leaves the queue.
pub proof fn lemma_tick(state: PalletState, tick: BlockNumber)
    requires
        state.wf(),
        state.closes_at(tick) ==> state.referenda.count() < u32::MAX,
    ensures
        state.ticked(tick).wf(),
        state.closes_at(tick) ==> {
            &&& state.ticked(tick).referenda.count() == state.referenda.count() + 1
            &&& state.ticked(tick).referenda.info(state.referenda.count() as int, 0) matches Some(
                ProposalInfo::Finished(outcome),
            )
            &&& outcome.end == tick
            &&& outcome.approved == (state.referenda.current->0[0].tally().aye_votes
                > state.referenda.current->0[0].tally().nay_votes)
        },
        !state.closes_at(tick) ==> state.ticked(tick).referenda.closed == state.referenda.closed,
        state.opens_at(tick) ==> {
            &&& state.ticked(tick).referenda.active()
            &&& state.ticked(tick).referenda.ends_at == state.end_of_voting(tick)
            &&& state.ticked(tick).queue.proposals == state.queue.proposals.skip(1)
        },
        !state.opens_at(tick) ==> {
            &&& state.ticked(tick).queue == state.queue
            &&& state.ticked(tick).referenda.active() ==> state.ticked(tick).referenda.current
                == state.referenda.current
        },
        state.referenda.outcomes_kept_by(state.ticked(tick).referenda),
{
    let closed = if state.closes_at(tick) {
        state.ended()
    } else {
        state
    };
    if state.closes_at(tick) {
        lemma_finished_wf(state.referenda);
        assert(state.ended().referenda.info(state.referenda.count() as int, 0) == Some(
            state.referenda.current->0[0].finished_at(state.referenda.ends_at),
        ));
    }
    if closed.opens_at(tick) {
        lemma_queue_stays_bounded(closed.queue, Seq::empty(), 1);
        lemma_opened_wf(
            closed.referenda,
            closed.end_of_voting(tick),
            content_hashes(closed.queue.proposals, 1),
        );
    }
}

} // verus!
