//! The single-proposal engine: anybody queues proposals and casts single
//! votes, and every referendum decides one proposal.

use crate::hashing::{content_hashes, hash_proposals};
use crate::primitives::{bodies, AccountId, BlockNumber};
use crate::queue::ProposalQueue;
use crate::referendum::{
    lemma_closing_keeps_outcomes, lemma_finished_wf, lemma_opening_keeps_outcomes,
    lemma_voting_keeps_outcomes, ReferendumIndex, ReferendumStore, SlotInfo,
};
use crate::template::event::{Config, Error, Event, TickEvents};
use crate::template::state::PalletState;
use crate::types::Vote;
use vstd::prelude::*;

verus! {

/// The index of a proposal slot within its referendum.
pub type ProposalIndex = u8;

/// A single-proposal engine.
pub struct Pallet {
    config: Config,
    queue: ProposalQueue,
    referenda: ReferendumStore,
}

impl View for Pallet {
    type V = PalletState;

    closed spec fn view(&self) -> PalletState {
        PalletState { config: self.config, queue: self.queue@, referenda: self.referenda@ }
    }
}

impl Pallet {
    /// Sets up an engine with the parameters `config`.
    pub fn new(config: Config) -> (pallet: Pallet)
        requires
            config.wf(),
        ensures
            pallet@ == PalletState::initial(config),
            pallet@.wf(),
    {
        Pallet {
            config,
            queue: ProposalQueue::new(config.max_proposal_length, config.proposal_queue_size),
            referenda: ReferendumStore::new(1),
        }
    }

    /// Puts an engine together from parts that were kept elsewhere. Parts
    /// that do not follow the parameters `config` are turned down.
    pub fn from_parts(config: Config, queue: ProposalQueue, referenda: ReferendumStore) -> (res:
        Option<Pallet>)
        requires
            queue@.wf(),
            referenda@.wf(),
        ensures
            res is Some <==> (PalletState { config, queue: queue@, referenda: referenda@ }).wf(),
            res matches Some(pallet) ==> pallet@ == (PalletState {
                config,
                queue: queue@,
                referenda: referenda@,
            }),
    {
        if config.is_valid() && queue.max_proposal_length() == config.max_proposal_length
            && queue.capacity() == config.proposal_queue_size && referenda.slots_per_referendum()
            == 1 {
            Some(Pallet { config, queue, referenda })
        } else {
            None
        }
    }

    /// The parameters the engine was set up with.
    pub fn config(&self) -> (config: Config)
        ensures
            config == self@.config,
    {
        self.config
    }

    /// Proposals that are queued to be used in the next referendum, oldest
    /// first.
    pub fn queued_proposals(&self) -> (proposals: &Vec<Vec<u8>>)
        ensures
            bodies(proposals@) == self@.queue.proposals,
    {
        self.queue.proposals()
    }

    /// Referenda that have taken place thus far, also the index of the open
    /// or next referendum.
    pub fn referendum_count(&self) -> (count: ReferendumIndex)
        requires
            self@.wf(),
        ensures
            count == self@.referenda.count(),
    {
        self.referenda.referendum_count()
    }

    /// The entry of slot `proposal_index` of referendum `referendum_index`,
    /// if it was ever created.
    pub fn referendum_info(
        &self,
        referendum_index: ReferendumIndex,
        proposal_index: ProposalIndex,
    ) -> (info: Option<SlotInfo>)
        ensures
            info == self@.referenda.info(referendum_index as int, proposal_index as int),
    {
        self.referenda.referendum_info(referendum_index, proposal_index as u32)
    }

    /// Time (in blocks) when the current referendum (if any) will end.
    pub fn referendum_ends_at(&self) -> (ends_at: BlockNumber)
        ensures
            ends_at == self@.referenda.ends_at,
    {
        self.referenda.referendum_ends_at()
    }

    /// Is there a referendum active right now?
    pub fn active_referendum(&self) -> (active: Option<()>)
        ensures
            active is Some <==> self@.referenda.active(),
    {
        if self.referenda.is_active() {
            Some(())
        } else {
            None
        }
    }

    /// Queues a proposal. A rejected proposal changes nothing.
    pub fn submit_proposal(&mut self, who: AccountId, raw_proposal: Vec<u8>) -> (res: Result<
        Event,
        Error,
    >)
        requires
            old(self)@.wf(),
        ensures
            final(self)@.wf(),
            res is Ok <==> old(self)@.proposal_rejection(raw_proposal@) is None,
            res matches Ok(event) ==> {
                &&& final(self)@ == old(self)@.proposed(raw_proposal@)
                &&& final(self)@.queue.proposals.len() == old(self)@.queue.proposals.len() + 1
                &&& event matches Event::ProposalSubmitted(proposal, submitter)
                &&& proposal@ == raw_proposal@
                &&& submitter == who
            },
            res matches Err(e) ==> {
                &&& final(self)@ == old(self)@
                &&& Some(e) == old(self)@.proposal_rejection(raw_proposal@)
            },
            final(self)@.queue.proposals.len() <= final(self)@.config.proposal_queue_size,
    {
        if !self.queue.fits(&raw_proposal) {
            return Err(Error::ProposalTooLong);
        }
        if self.queue.is_full() {
            return Err(Error::ProposalQueueFull);
        }
        let proposal = raw_proposal.clone();
        assert(proposal@ =~= raw_proposal@);
        self.queue.append(raw_proposal);
        Ok(Event::ProposalSubmitted(proposal, who))
    }

    /// Submit vote for a certain proposal in the current referendum: one
    /// vote in direction `vote`. While a referendum is open its only slot is
    /// slot 0, and `proposal_index` must name it.
    pub fn submit_vote(
        &mut self,
        who: AccountId,
        proposal_index: ProposalIndex,
        vote: Vote,
    ) -> (res: Result<Event, Error>)
        requires
            old(self)@.wf(),
            old(self)@.referenda.active() ==> proposal_index == 0,
        ensures
            final(self)@.wf(),
            res is Ok <==> old(self)@.vote_rejection(vote) is None,
            res matches Ok(event) ==> final(self)@ == old(self)@.voted(vote) && event
                == Event::VoteSubmitted(vote, who),
            res matches Err(e) ==> {
                &&& final(self)@ == old(self)@
                &&& Some(e) == old(self)@.vote_rejection(vote)
            },
            old(self)@.referenda.outcomes_kept_by(final(self)@.referenda),
    {
        if !self.referenda.is_active() {
            return Err(Error::NoActiveReferendum);
        }
        proof {
            lemma_voting_keeps_outcomes(self@.referenda, 0, vote, 1);
        }
        if !self.referenda.add_votes(proposal_index as u32, vote, 1) {
            return Err(Error::Overflow);
        }
        Ok(Event::VoteSubmitted(vote, who))
    }

    /// Opens a referendum on the oldest queued proposal, unless the queue is
    /// empty: then nothing changes.
    fn start_referendum(&mut self, block_number: BlockNumber) -> (res: Result<Event, Error>)
        requires
            old(self)@.wf(),
        ensures
            final(self)@.wf(),
            res is Ok <==> old(self)@.can_start(),
            res matches Ok(event) ==> final(self)@ == old(self)@.started(block_number) && event
                == Event::ReferendumStarted(old(self)@.referenda.count() as ReferendumIndex),
            res matches Err(e) ==> e == Error::NoProposalsInQueue && final(self)@ == old(self)@,
            old(self)@.referenda.outcomes_kept_by(final(self)@.referenda),
    {
        // Update referendum index
        let referendum_index = self.referenda.referendum_count();
        if self.queue.len() == 0 {
            return Err(Error::NoProposalsInQueue);
        }
        let proposal_texts = self.queue.take_front(1);
        let hashes = hash_proposals(&proposal_texts, 1);
        proof {
            assert(hashes@ =~= content_hashes(old(self)@.queue.proposals, 1));
            lemma_opening_keeps_outcomes(
                old(self)@.referenda,
                old(self)@.end_of_voting(block_number),
                hashes@,
            );
        }
        self.referenda.open(block_number.saturating_add(self.config.voting_period), &hashes);
        Ok(Event::ReferendumStarted(referendum_index))
    }

    /// Closes the open referendum: its slot gets its outcome, and the
    /// referendum counter moves on.
    fn end_referendum(&mut self) -> (event: Event)
        requires
            old(self)@.wf(),
            old(self)@.referenda.active(),
            old(self)@.referenda.count() < u32::MAX,
        ensures
            final(self)@.wf(),
            final(self)@ == old(self)@.ended(),
            event == Event::ReferendumEnded(old(self)@.referenda.count() as ReferendumIndex),
            old(self)@.referenda.outcomes_kept_by(final(self)@.referenda),
    {
        let referendum_index = self.referenda.referendum_count();
        proof {
            lemma_closing_keeps_outcomes(self@.referenda);
        }
        let _ = self.referenda.close();
        Event::ReferendumEnded(referendum_index)
    }

    /// The scheduler: called once per tick of the clock, in order. It closes
    /// the open referendum if this is the tick it ends at, and then opens a
    /// referendum if one is due and a proposal is queued.
    pub fn on_initialize(&mut self, block_number: BlockNumber) -> (events: TickEvents)
        requires
            old(self)@.wf(),
            old(self)@.closes_at(block_number) ==> old(self)@.referenda.count() < u32::MAX,
        ensures
            final(self)@.wf(),
            final(self)@ == old(self)@.ticked(block_number),
            events.ended is Some <==> old(self)@.closes_at(block_number),
            events.ended matches Some(event) ==> event == Event::ReferendumEnded(
                old(self)@.referenda.count() as ReferendumIndex,
            ),
            old(self)@.closes_at(block_number) ==> final(self)@.referenda.info(
                old(self)@.referenda.count() as int,
                0,
            ) == Some(old(self)@.referenda.current->0[0].finished_at(block_number)),
            events.started is Some <==> old(self)@.opens_at(block_number),
            events.started matches Some(event) ==> {
                &&& event == Event::ReferendumStarted(
                    final(self)@.referenda.count() as ReferendumIndex,
                )
                &&& final(self)@.queue.proposals == old(self)@.queue.proposals.skip(1)
            },
            events.started is None ==> final(self)@.queue == old(self)@.queue,
            events.skipped is Some <==> {
                &&& old(self)@.launches_at(block_number)
                &&& !old(self)@.can_start()
            },
            events.skipped matches Some(e) ==> e == Error::NoProposalsInQueue,
            old(self)@.referenda.outcomes_kept_by(final(self)@.referenda),
    {
        let ended = if self.referenda.is_active() && block_number
            == self.referenda.referendum_ends_at() {
            proof {
                lemma_finished_wf(self@.referenda);
            }
            Some(self.end_referendum())
        } else {
            None
        };
        let (started, skipped) = if block_number % self.config.launch_period == 0 {
            match self.start_referendum(block_number) {
                Ok(event) => (Some(event), None),
                Err(e) => (None, Some(e)),
            }
        } else {
            (None, None)
        };
        TickEvents { ended, started, skipped }
    }
}

} // verus!
