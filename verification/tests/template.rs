use parity_scale_codec::Encode;
use quadratic_voting::template::{Config, Error, Event, Pallet, ProposalIndex, Vote};
use quadratic_voting::types::ProposalInfo;

const LAUNCH_PERIOD: u64 = 2;
const VOTING_PERIOD: u64 = 1;

fn test_config() -> Config {
    Config {
        max_proposal_length: 50,
        launch_period: LAUNCH_PERIOD,
        voting_period: VOTING_PERIOD,
        proposal_queue_size: 1,
    }
}

/// A small runtime around the engine: the engine and the block counter,
/// which starts at 1.
struct TestExt {
    template: Pallet,
    block_number: u64,
}

fn new_test_ext() -> TestExt {
    TestExt { template: Pallet::new(test_config()), block_number: 1 }
}

impl TestExt {
    fn next_block(&mut self) {
        self.block_number += 1;
        self.template.on_initialize(self.block_number);
    }

    fn run_to_block(&mut self, n: u64) {
        while self.block_number < n {
            self.next_block();
        }
    }

    /// Everything that can be observed of the engine.
    fn snapshot(&self) -> Snapshot {
        let count = self.template.referendum_count();
        let mut infos = Vec::new();
        for r in 0..=count {
            for s in 0..2 {
                infos.push(self.template.referendum_info(r, s));
            }
        }
        Snapshot {
            queue: self.template.queued_proposals().clone(),
            count,
            ends_at: self.template.referendum_ends_at(),
            active: self.template.active_referendum(),
            infos,
        }
    }
}

#[derive(Debug, PartialEq)]
struct Snapshot {
    queue: Vec<Vec<u8>>,
    count: u32,
    ends_at: u64,
    active: Option<()>,
    infos: Vec<Option<ProposalInfo<[u8; 32], u64>>>,
}

/// The call fails with `error` and changes nothing.
fn assert_noop(
    ext: &mut TestExt,
    call: impl FnOnce(&mut TestExt) -> Result<Event, Error>,
    error: Error,
) {
    let before = ext.snapshot();
    assert_eq!(call(ext), Err(error));
    assert_eq!(ext.snapshot(), before);
}

#[test]
fn tests_submitting_a_proposal_adds_it_to_queued_proposals() {
    let mut ext = new_test_ext();
    assert!(ext.template.submit_proposal(1, "Should we buy DOT?".encode()).is_ok());
    assert_eq!(ext.template.queued_proposals().len(), 1);
    assert_eq!(ext.template.queued_proposals()[0], "Should we buy DOT?".encode());
}

#[test]
fn tests_error_if_proposal_too_long() {
    let mut ext = new_test_ext();
    assert_noop(
        &mut ext,
        |ext| {
            ext.template.submit_proposal(
                1,
                "Should we increase the maximum proposal length? Just a little bit".encode(),
            )
        },
        Error::ProposalTooLong,
    );
}

#[test]
fn tests_error_if_queue_full() {
    let mut ext = new_test_ext();
    assert!(ext.template.submit_proposal(1, "Should we hodl?".encode()).is_ok());
    assert_noop(
        &mut ext,
        |ext| ext.template.submit_proposal(1, "Should we increase the queue size?".encode()),
        Error::ProposalQueueFull,
    );
}

#[test]
fn tests_referendum_is_started_after_launch_period_blocks() {
    let mut ext = new_test_ext();
    assert_eq!(ext.template.active_referendum(), None);
    ext.template.submit_proposal(1, "Should we fill the queue?".encode()).unwrap();
    ext.run_to_block(LAUNCH_PERIOD);
    assert_eq!(ext.template.active_referendum(), Some(()));
}

#[test]
fn tests_referendum_not_started_no_proposals_in_queue() {
    let mut ext = new_test_ext();
    assert_eq!(ext.template.active_referendum(), None);
    ext.run_to_block(LAUNCH_PERIOD);
    assert_eq!(ext.template.active_referendum(), None);
}

#[test]
fn tests_referendum_closes_after_voting_period_blocks() {
    let mut ext = new_test_ext();
    assert_eq!(ext.template.active_referendum(), None);
    ext.template.submit_proposal(1, "Should we fill the queue?".encode()).unwrap();
    ext.run_to_block(LAUNCH_PERIOD);
    assert_eq!(ext.template.active_referendum(), Some(()));
    assert_eq!(ext.template.referendum_ends_at(), 3);
    ext.next_block();
    assert_eq!(ext.template.active_referendum(), None);
}

#[test]
fn user_submits_vote_and_vote_count_increases() {
    let mut ext = new_test_ext();
    assert!(ext.template.submit_proposal(1, "Should we buy DOT?".encode()).is_ok());
    ext.run_to_block(LAUNCH_PERIOD);
    assert_eq!(ext.template.active_referendum(), Some(()));
    assert!(ext.template.submit_vote(1, 0 as ProposalIndex, Vote::Aye).is_ok());
    assert_eq!(ext.template.referendum_info(0, 0).unwrap().get_aye_votes(), 1);
    assert_eq!(ext.template.referendum_info(0, 0).unwrap().get_nay_votes(), 0);
    assert!(ext.template.referendum_info(0, 0).unwrap().is_ongoing());
    ext.next_block();
    assert!(ext.template.referendum_info(0, 0).unwrap().has_finished());
}

#[test]
fn single_proposal_referendum_runs_its_course() {
    let mut ext = new_test_ext();
    assert_eq!(
        ext.template.submit_proposal(7, vec![1, 2, 3]),
        Ok(Event::ProposalSubmitted(vec![1, 2, 3], 7))
    );
    assert_noop(
        &mut ext,
        |ext| ext.template.submit_vote(7, 0, Vote::Aye),
        Error::NoActiveReferendum,
    );
    ext.next_block();
    assert!(ext.template.queued_proposals().is_empty());
    assert_eq!(ext.template.referendum_count(), 0);
    assert_eq!(ext.template.submit_vote(7, 0, Vote::Nay), Ok(Event::VoteSubmitted(Vote::Nay, 7)));
    assert_eq!(ext.template.submit_vote(8, 0, Vote::Aye), Ok(Event::VoteSubmitted(Vote::Aye, 8)));
    let events = ext.template.on_initialize(3);
    assert_eq!(events.ended, Some(Event::ReferendumEnded(0)));
    assert_eq!(events.started, None);
    assert_eq!(ext.template.referendum_count(), 1);
    // one aye against one nay: a tie is not approved
    match ext.template.referendum_info(0, 0).unwrap() {
        ProposalInfo::Finished(outcome) => {
            assert!(!outcome.approved);
            assert_eq!(outcome.end, 3);
        },
        ProposalInfo::Ongoing(_) => panic!("the referendum has closed"),
    }
    assert_eq!(ext.template.referendum_info(0, 1), None);
    assert_eq!(ext.template.referendum_info(1, 0), None);
}

#[test]
fn single_proposal_referendum_skipped_while_queue_is_empty() {
    let mut ext = new_test_ext();
    let events = ext.template.on_initialize(2);
    assert_eq!(events.ended, None);
    assert_eq!(events.started, None);
    assert_eq!(events.skipped, Some(Error::NoProposalsInQueue));
    ext.template.submit_proposal(1, vec![9]).unwrap();
    // not a launch tick
    let events = ext.template.on_initialize(3);
    assert_eq!(events.started, None);
    assert_eq!(events.skipped, None);
    let events = ext.template.on_initialize(4);
    assert_eq!(events.started, Some(Event::ReferendumStarted(0)));
    assert_eq!(ext.template.referendum_ends_at(), 5);
}
