//! The engine itself: registration, proposal submission, voting and the
//! referendum scheduler.

use crate::cost::{
    intended_votes, lemma_cost_of_prefix, lemma_cost_step, lemma_cost_within_square_of_weight,
    square, total_cost,
};
use crate::hashing::{content_hashes, hash_proposals};
use crate::ledger::PointsLedger;
use crate::primitives::{bodies, AccountId, BlockNumber, IdentityInterface, Points, H256};
use crate::quadratic_voting::config::Config;
use crate::quadratic_voting::event::{Error, Event, TickEvents};
use crate::quadratic_voting::state::PalletState;
use crate::queue::ProposalQueue;
use crate::referendum::{
    first_overflow, lemma_balloted, lemma_closing_keeps_outcomes, lemma_finished_wf,
    lemma_opening_keeps_outcomes, outcomes, ProposalIndex, ReferendumIndex, ReferendumStore,
    SlotInfo,
};
use crate::types::Vote;
use vstd::prelude::*;

verus! {

/// A quadratic-voting engine.
pub struct Pallet {
    config: Config,
    queue: ProposalQueue,
    ledger: PointsLedger,
    referenda: ReferendumStore,
}

impl View for Pallet {
    type V = PalletState;

    closed spec fn view(&self) -> PalletState {
        PalletState {
            config: self.config,
            queue: self.queue@,
            points: self.ledger@,
            referenda: self.referenda@,
        }
    }
}

impl Pallet {
    /// Sets up an engine with the parameters `config`.
    pub fn new(config: Config) -> (pallet: Pallet)
        requires
            config.wf(),
        ensures
            pallet@ == PalletState::initial(config),
            pallet@.wf(),
    {
        Pallet {
            config,
            queue: ProposalQueue::new(config.max_proposal_length, config.proposal_queue_size),
            ledger: PointsLedger::new(),
            referenda: ReferendumStore::new(config.proposals_per_referendum),
        }
    }

    /// Puts an engine together from parts that were kept elsewhere. Parts
    /// that do not follow the parameters `config` are turned down.
    pub fn from_parts(
        config: Config,
        queue: ProposalQueue,
        ledger: PointsLedger,
        referenda: ReferendumStore,
    ) -> (res: Option<Pallet>)
        requires
            queue@.wf(),
            referenda@.wf(),
        ensures
            res is Some <==> (PalletState {
                config,
                queue: queue@,
                points: ledger@,
                referenda: referenda@,
            }).wf(),
            res matches Some(pallet) ==> pallet@ == (PalletState {
                config,
                queue: queue@,
                points: ledger@,
                referenda: referenda@,
            }),
    {
        if config.is_valid() && queue.max_proposal_length() == config.max_proposal_length
            && queue.capacity() == config.proposal_queue_size && referenda.slots_per_referendum()
            == config.proposals_per_referendum {
            Some(Pallet { config, queue, ledger, referenda })
        } else {
            None
        }
    }

    /// The parameters the engine was set up with.
    pub fn config(&self) -> (config: Config)
        ensures
            config == self@.config,
    {
        self.config
    }

    /// Proposals that are queued to be used in the next referendum, oldest
    /// first.
    pub fn queued_proposals(&self) -> (proposals: &Vec<Vec<u8>>)
        ensures
            bodies(proposals@) == self@.queue.proposals,
    {
        self.queue.proposals()
    }

    /// Referenda that have taken place thus far, also the index of the open
    /// or next referendum.
    pub fn referendum_count(&self) -> (count: ReferendumIndex)
        requires
            self@.wf(),
        ensures
            count == self@.referenda.count(),
    {
        self.referenda.referendum_count()
    }

    /// The entry of slot `proposal_index` of referendum `referendum_index`,
    /// if it was ever created.
    pub fn referendum_info(
        &self,
        referendum_index: ReferendumIndex,
        proposal_index: ProposalIndex,
    ) -> (info: Option<SlotInfo>)
        ensures
            info == self@.referenda.info(referendum_index as int, proposal_index as int),
    {
        self.referenda.referendum_info(referendum_index, proposal_index)
    }

    /// Time (in blocks) when the current referendum (if any) will end.
    pub fn referendum_ends_at(&self) -> (ends_at: BlockNumber)
        ensures
            ends_at == self@.referenda.ends_at,
    {
        self.referenda.referendum_ends_at()
    }

    /// Is there a referendum active right now?
    pub fn active_referendum(&self) -> (active: Option<()>)
        ensures
            active is Some <==> self@.referenda.active(),
    {
        if self.referenda.is_active() {
            Some(())
        } else {
            None
        }
    }

    /// The points of `account`, if it is a registered voter.
    pub fn voter_points(&self, account: AccountId) -> (balance: Option<Points>)
        ensures
            balance is Some <==> self@.points.contains_key(account),
            balance matches Some(b) ==> b == self@.points[account],
    {
        self.ledger.voter_points(&account)
    }

    /// Registers `account` as a voter with the full budget of points, if
    /// `identity` tells that the account has an identity and the account has
    /// no balance yet. What `identity` tells is its own business:
    /// `do_register_voter` states what follows either way.
    pub fn register_voter<I: IdentityInterface<AccountId, H256>>(
        &mut self,
        identity: &I,
        account: AccountId,
    ) -> (res: Result<(), Error>)
        requires
            old(self)@.wf(),
        ensures
            final(self)@.wf(),
            res is Ok ==> {
                &&& !old(self)@.points.contains_key(account)
                &&& final(self)@ == old(self)@.registered(account)
            },
            res matches Err(e) ==> {
                &&& final(self)@ == old(self)@
                &&& e == Error::NoIdentity || e == Error::VoterAlreadyRegistered
                &&& e == Error::VoterAlreadyRegistered ==> old(self)@.points.contains_key(account)
            },
    {
        let has_identity = identity.has_identity(&account);
        self.do_register_voter(has_identity, account)
    }

    /// Registers `account` as a voter, where `has_identity` tells whether the
    /// account has an identity. It succeeds exactly where it has one and has
    /// no balance yet; the new balance is the full budget.
    pub fn do_register_voter(&mut self, has_identity: bool, account: AccountId) -> (res: Result<
        (),
        Error,
    >)
        requires
            old(self)@.wf(),
        ensures
            final(self)@.wf(),
            res is Ok <==> has_identity && !old(self)@.points.contains_key(account),
            res is Ok ==> {
                &&& final(self)@ == old(self)@.registered(account)
                &&& final(self)@.points[account] == square(old(self)@.config.max_votes as int)
            },
            res matches Err(e) ==> {
                &&& final(self)@ == old(self)@
                &&& Some(e) == old(self)@.registration_rejection(has_identity, account)
            },
    {
        if !has_identity {
            return Err(Error::NoIdentity);
        }
        if self.ledger.is_a_voter(&account) {
            return Err(Error::VoterAlreadyRegistered);
        }
        let budget = self.config.voter_budget();
        self.ledger.register(account, budget);
        Ok(())
    }

    /// Queues a proposal of the registered voter `who`. A rejected proposal
    /// changes nothing.
    pub fn submit_proposal(&mut self, who: AccountId, raw_proposal: Vec<u8>) -> (res: Result<
        Event,
        Error,
    >)
        requires
            old(self)@.wf(),
        ensures
            final(self)@.wf(),
            res is Ok <==> old(self)@.proposal_rejection(who, raw_proposal@) is None,
            res matches Ok(event) ==> {
                &&& final(self)@ == old(self)@.proposed(raw_proposal@)
                &&& final(self)@.queue.proposals.len() == old(self)@.queue.proposals.len() + 1
                &&& event matches Event::ProposalSubmitted(proposal, submitter)
                &&& proposal@ == raw_proposal@
                &&& submitter == who
            },
            res matches Err(e) ==> {
                &&& final(self)@ == old(self)@
                &&& Some(e) == old(self)@.proposal_rejection(who, raw_proposal@)
            },
            final(self)@.queue.proposals.len() <= final(self)@.config.proposal_queue_size,
    {
        if !self.ledger.is_a_voter(&who) {
            return Err(Error::NotAVoter);
        }
        if !self.queue.fits(&raw_proposal) {
            return Err(Error::ProposalTooLong);
        }
        if self.queue.is_full() {
            return Err(Error::ProposalQueueFull);
        }
        let proposal = raw_proposal.clone();
        assert(proposal@ =~= raw_proposal@);
        self.queue.append(raw_proposal);
        Ok(Event::ProposalSubmitted(proposal, who))
    }

    /// Submit votes distributed amongst all proposals in the current
    /// referendum: one amount and direction per slot, in slot order.
    ///
    /// The ballot is admitted only if the balance of `who` covers the square
    /// of its combined weight. The votes are then counted slot by slot, and
    /// each slot's votes are paid for at the square of their number. Counting
    /// stops at the first slot whose counter would overflow: the slots before
    /// it stay counted and paid for.
    pub fn submit_votes(&mut self, who: AccountId, all_votes: Vec<(u32, Vote)>) -> (res: Result<
        Event,
        Error,
    >)
        requires
            old(self)@.wf(),
        ensures
            final(self)@.wf(),
            old(self)@.ballot_rejection(who, all_votes@) matches Some(e) ==> {
                &&& res matches Err(rejection)
                &&& rejection == e
                &&& final(self)@ == old(self)@
            },
            old(self)@.ballot_rejection(who, all_votes@) is None ==> {
                let n = old(self)@.counted_slots(all_votes@);
                &&& 0 <= n <= all_votes@.len()
                &&& final(self)@ == old(self)@.balloted(who, all_votes@, n)
                &&& res is Ok <==> n == all_votes@.len()
                &&& res matches Err(e) ==> e == Error::Overflow
                &&& res matches Ok(event) ==> {
                    &&& event matches Event::VoteSubmitted(votes, voter)
                    &&& votes@ == all_votes@
                    &&& voter == who
                }
            },
            res is Ok ==> final(self)@.points[who] == old(self)@.points[who] - total_cost(
                all_votes@,
            ),
            old(self)@.referenda.outcomes_kept_by(final(self)@.referenda),
    {
        if !self.ledger.is_a_voter(&who) {
            return Err(Error::NotAVoter);
        }
        if !self.referenda.is_active() {
            return Err(Error::NoActiveReferendum);
        }
        if self.ledger.already_voted(&who, self.config.max_votes) {
            return Err(Error::AlreadyVoted);
        }
        if all_votes.len() != self.config.proposals_per_referendum as usize {
            return Err(Error::MissingVotes);
        }
        let intended_votes = intended_votes(&all_votes);
        if !self.ledger.has_enough_points(&who, intended_votes) {
            return Err(Error::NotEnoughPoints);
        }
        proof {
            lemma_balloted(self@.referenda, all_votes@, 0);
            assert(all_votes@.take(0) =~= Seq::empty());
            assert(self@.points =~= self@.points.insert(who, self@.points[who]));
        }
        let mut proposal_index: usize = 0;
        while proposal_index < all_votes.len()
            invariant
                old(self)@.wf(),
                old(self)@.ballot_rejection(who, all_votes@) is None,
                proposal_index <= all_votes@.len(),
                self@ == old(self)@.balloted(who, all_votes@, proposal_index as int),
                old(self)@.counted_slots(all_votes@) == first_overflow(
                    old(self)@.referenda.current->0,
                    all_votes@,
                    proposal_index as int,
                ),
                total_cost(all_votes@.take(proposal_index as int)) <= old(self)@.points[who],
            decreases all_votes.len() - proposal_index,
        {
            let amount: u32 = all_votes[proposal_index].0;
            let vote: Vote = all_votes[proposal_index].1;
            proof {
                lemma_balloted(old(self)@.referenda, all_votes@, proposal_index as int);
                lemma_cost_step(all_votes@, proposal_index as int);
                lemma_cost_of_prefix(all_votes@, proposal_index as int + 1);
                lemma_cost_of_prefix(all_votes@, proposal_index as int);
                lemma_cost_within_square_of_weight(all_votes@);
            }
            let counted = self.referenda.add_votes(proposal_index as u32, vote, amount);
            if !counted {
                return Err(Error::Overflow);
            }
            self.ledger.take_points_from_voter(&who, amount);
            proposal_index += 1;
            proof {
                assert(self@.points =~= old(self)@.balloted(
                    who,
                    all_votes@,
                    proposal_index as int,
                ).points);
            }
        }
        proof {
            assert(all_votes@.take(all_votes@.len() as int) =~= all_votes@);
            lemma_balloted(old(self)@.referenda, all_votes@, all_votes@.len() as int);
            lemma_cost_within_square_of_weight(all_votes@);
        }
        Ok(Event::VoteSubmitted(all_votes, who))
    }

    /// Opens a referendum on the oldest queued proposals, one per slot in the
    /// order they were queued, unless the queue holds too few: then nothing
    /// changes.
    fn start_referendum(&mut self, block_number: BlockNumber) -> (res: Result<Event, Error>)
        requires
            old(self)@.wf(),
        ensures
            final(self)@.wf(),
            res is Ok <==> old(self)@.can_start(),
            res matches Ok(event) ==> {
                &&& final(self)@ == old(self)@.started(block_number)
                &&& event matches Event::ReferendumStarted(referendum_index, proposal_texts)
                &&& referendum_index == old(self)@.referenda.count()
                &&& bodies(proposal_texts@) == old(self)@.queue.proposals.take(
                    old(self)@.config.proposals_per_referendum as int,
                )
            },
            res matches Err(e) ==> {
                &&& e == Error::NotEnoughProposalsInQueue
                &&& final(self)@ == old(self)@
            },
            old(self)@.referenda.outcomes_kept_by(final(self)@.referenda),
    {
        let referendum_index = self.referenda.referendum_count();
        let proposals_per_referendum = self.config.proposals_per_referendum as usize;
        if self.queue.len() < proposals_per_referendum {
            return Err(Error::NotEnoughProposalsInQueue);
        }
        let proposal_texts = self.queue.take_front(proposals_per_referendum);
        let hashes = hash_proposals(&proposal_texts, proposals_per_referendum);
        proof {
            assert(hashes@ =~= content_hashes(
                old(self)@.queue.proposals,
                proposals_per_referendum as int,
            ));
            lemma_opening_keeps_outcomes(
                old(self)@.referenda,
                old(self)@.end_of_voting(block_number),
                hashes@,
            );
        }
        // Update current referendum related variables
        self.referenda.open(block_number.saturating_add(self.config.voting_period), &hashes);
        Ok(Event::ReferendumStarted(referendum_index, proposal_texts))
    }

    /// Closes the open referendum: every slot gets its outcome, and the
    /// referendum counter moves on.
    fn end_referendum(&mut self) -> (event: Event)
        requires
            old(self)@.wf(),
            old(self)@.referenda.active(),
            old(self)@.referenda.count() < u32::MAX,
        ensures
            final(self)@.wf(),
            final(self)@ == old(self)@.ended(),
            event matches Event::ReferendumEnded(referendum_index, finished_proposals)
                && referendum_index == old(self)@.referenda.count() && finished_proposals@
                == outcomes(old(self)@.referenda.current->0, old(self)@.referenda.ends_at),
            old(self)@.referenda.outcomes_kept_by(final(self)@.referenda),
    {
        let referendum_index = self.referenda.referendum_count();
        proof {
            lemma_closing_keeps_outcomes(self@.referenda);
        }
        let finished_proposals = self.referenda.close();
        Event::ReferendumEnded(referendum_index, finished_proposals)
    }

    /// The scheduler: called once per tick of the clock, in order. It closes
    /// the open referendum if this is the tick it ends at, and then opens a
    /// referendum if one is due and the queue can fill it. A referendum that
    /// is due while the queue holds too few proposals is skipped.
    pub fn on_initialize(&mut self, block_number: BlockNumber) -> (events: TickEvents)
        requires
            old(self)@.wf(),
            old(self)@.closes_at(block_number) ==> old(self)@.referenda.count() < u32::MAX,
        ensures
            final(self)@.wf(),
            final(self)@ == old(self)@.ticked(block_number),
            events.ended is Some <==> old(self)@.closes_at(block_number),
            events.ended matches Some(event) ==> {
                &&& event matches Event::ReferendumEnded(referendum_index, finished_proposals)
                &&& referendum_index == old(self)@.referenda.count()
                &&& finished_proposals@ == outcomes(
                    old(self)@.referenda.current->0,
                    block_number,
                )
            },
            old(self)@.closes_at(block_number) ==> forall|s: int|
                0 <= s < old(self)@.config.proposals_per_referendum ==> (
                #[trigger] final(self)@.referenda.info(old(self)@.referenda.count() as int, s))
                    == Some(old(self)@.referenda.current->0[s].finished_at(block_number)),
            events.started is Some <==> old(self)@.opens_at(block_number),
            events.started matches Some(event) ==> {
                &&& event matches Event::ReferendumStarted(referendum_index, proposal_texts)
                &&& referendum_index == final(self)@.referenda.count()
                &&& bodies(proposal_texts@) == old(self)@.queue.proposals.take(
                    old(self)@.config.proposals_per_referendum as int,
                )
                &&& final(self)@.queue.proposals == old(self)@.queue.proposals.skip(
                    old(self)@.config.proposals_per_referendum as int,
                )
            },
            events.started is None ==> final(self)@.queue == old(self)@.queue,
            events.skipped is Some <==> {
                &&& old(self)@.launches_at(block_number)
                &&& !old(self)@.can_start()
            },
            events.skipped matches Some(e) ==> e == Error::NotEnoughProposalsInQueue,
            final(self)@.points == old(self)@.points,
            old(self)@.referenda.outcomes_kept_by(final(self)@.referenda),
    {
        let ended = if self.referenda.is_active() && block_number
            == self.referenda.referendum_ends_at() {
            proof {
                lemma_finished_wf(self@.referenda);
            }
            Some(self.end_referendum())
        } else {
            None
        };
        let (started, skipped) = if block_number % self.config.launch_period == 0 {
            match self.start_referendum(block_number) {
                Ok(event) => (Some(event), None),
                Err(e) => (None, Some(e)),
            }
        } else {
            (None, None)
        };
        TickEvents { ended, started, skipped }
    }
}

} // verus!
