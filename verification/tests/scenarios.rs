use quadratic_voting::basic_identity;
use quadratic_voting::primitives::IdentityInterface;
use quadratic_voting::quadratic_voting::{Config, Error, Event, GenesisConfig, Pallet, TickEvents};
use quadratic_voting::types::{
    FinishedProposalInfo, OngoingProposalInfo, ProposalInfo, Tally, Vote,
};
use sp_core::Hasher;

fn config(proposals_per_referendum: u32) -> Config {
    Config {
        max_proposal_length: 50,
        proposal_queue_size: 2,
        launch_period: 2,
        voting_period: 1,
        proposals_per_referendum,
        max_votes: 10,
    }
}

/// An engine in which the accounts of `voters` are registered.
fn engine(config: Config, voters: Vec<u64>) -> Pallet {
    let mut identity = basic_identity::Pallet::new();
    GenesisConfig { voters }.build(config, &mut identity).unwrap()
}

/// An identity gate that knows everybody.
struct Everybody;

impl IdentityInterface<u64, [u8; 32]> for Everybody {
    fn has_identity(&self, _who: &u64) -> bool {
        true
    }

    fn set_identity(&mut self, _who: &u64, _name: [u8; 32]) {}

    fn get_identity(&self, _who: &u64) -> Option<[u8; 32]> {
        Some([0u8; 32])
    }

    fn clear_identity(&mut self, _who: &u64) {}
}

/// An identity gate that knows nobody, whatever it is told.
struct Nobody;

impl IdentityInterface<u64, [u8; 32]> for Nobody {
    fn has_identity(&self, _who: &u64) -> bool {
        false
    }

    fn set_identity(&mut self, _who: &u64, _name: [u8; 32]) {}

    fn get_identity(&self, _who: &u64) -> Option<[u8; 32]> {
        None
    }

    fn clear_identity(&mut self, _who: &u64) {}
}

fn ongoing(body: &[u8], aye_votes: u32, nay_votes: u32) -> ProposalInfo<[u8; 32], u64> {
    ProposalInfo::Ongoing(OngoingProposalInfo {
        proposal_hash: sp_core::Blake2Hasher::hash(body).0,
        tally: Tally { aye_votes, nay_votes },
    })
}

fn finished(approved: bool, end: u64) -> ProposalInfo<[u8; 32], u64> {
    ProposalInfo::Finished(FinishedProposalInfo { approved, end })
}

#[test]
fn referendum_of_two_proposals_runs_its_course() {
    let mut voting = engine(config(2), vec![1]);
    assert_eq!(voting.voter_points(1), Some(100));

    // tick 1: two proposals are queued
    let first = b"first proposal".to_vec();
    let second = b"second proposal".to_vec();
    assert_eq!(
        voting.submit_proposal(1, first.clone()),
        Ok(Event::ProposalSubmitted(first.clone(), 1))
    );
    assert_eq!(
        voting.submit_proposal(1, second.clone()),
        Ok(Event::ProposalSubmitted(second.clone(), 1))
    );
    assert_eq!(voting.queued_proposals(), &vec![first.clone(), second.clone()]);
    assert_eq!(voting.referendum_info(0, 0), None);

    // tick 2: referendum 0 opens on both
    let events = voting.on_initialize(2);
    assert_eq!(
        events,
        TickEvents {
            ended: None,
            started: Some(Event::ReferendumStarted(0, vec![first.clone(), second.clone()])),
            skipped: None,
        }
    );
    assert_eq!(voting.active_referendum(), Some(()));
    assert_eq!(voting.referendum_count(), 0);
    assert_eq!(voting.referendum_ends_at(), 3);
    assert!(voting.queued_proposals().is_empty());
    assert_eq!(voting.referendum_info(0, 0), Some(ongoing(&first, 0, 0)));
    assert_eq!(voting.referendum_info(0, 1), Some(ongoing(&second, 0, 0)));
    assert_eq!(voting.referendum_info(0, 2), None);
    assert_eq!(voting.referendum_info(1, 0), None);

    // total weight 7, 49 <= 100: accepted, and paid for slot by slot
    let ballot = vec![(5, Vote::Aye), (2, Vote::Nay)];
    assert_eq!(voting.submit_votes(1, ballot.clone()), Ok(Event::VoteSubmitted(ballot, 1)));
    assert_eq!(voting.voter_points(1), Some(100 - 25 - 4));
    assert_eq!(voting.referendum_info(0, 0), Some(ongoing(&first, 5, 0)));
    assert_eq!(voting.referendum_info(0, 1), Some(ongoing(&second, 0, 2)));

    // tick 3: the referendum closes
    let events = voting.on_initialize(3);
    assert_eq!(
        events,
        TickEvents {
            ended: Some(Event::ReferendumEnded(0, vec![finished(true, 3), finished(false, 3)])),
            started: None,
            skipped: None,
        }
    );
    assert_eq!(voting.active_referendum(), None);
    assert_eq!(voting.referendum_count(), 1);
    assert_eq!(voting.referendum_info(0, 0), Some(finished(true, 3)));
    assert_eq!(voting.referendum_info(0, 1), Some(finished(false, 3)));
    // closing returns no points
    assert_eq!(voting.voter_points(1), Some(71));
}

#[test]
fn weight_eleven_on_a_single_slot_is_not_covered_by_a_hundred_points() {
    let mut voting = engine(config(1), vec![1]);
    voting.submit_proposal(1, vec![1]).unwrap();
    voting.on_initialize(2);
    assert_eq!(voting.active_referendum(), Some(()));
    assert_eq!(voting.submit_votes(1, vec![(11, Vote::Aye)]), Err(Error::NotEnoughPoints));
    assert_eq!(voting.voter_points(1), Some(100));
    assert_eq!(voting.referendum_info(0, 0).unwrap().get_aye_votes(), 0);
    // ten votes cost exactly the budget
    assert!(voting.submit_votes(1, vec![(10, Vote::Aye)]).is_ok());
    assert_eq!(voting.voter_points(1), Some(0));
    assert_eq!(voting.referendum_info(0, 0).unwrap().get_aye_votes(), 10);
    // a voter without points is still a voter
    assert!(voting.submit_proposal(1, vec![2]).is_ok());
    assert_eq!(voting.submit_votes(1, vec![(0, Vote::Aye)]), Err(Error::AlreadyVoted));
}

#[test]
fn proposal_of_a_participant_who_is_not_registered_is_rejected() {
    let mut voting = engine(config(2), vec![1]);
    voting.submit_proposal(1, vec![1, 2]).unwrap();
    assert_eq!(voting.submit_proposal(2, vec![3, 4]), Err(Error::NotAVoter));
    assert_eq!(voting.queued_proposals(), &vec![vec![1, 2]]);
}

#[test]
fn registration_needs_an_identity_and_no_earlier_balance() {
    let mut identity = basic_identity::Pallet::new();
    let mut voting = Pallet::new(config(2));
    assert_eq!(voting.register_voter(&identity, 5), Err(Error::NoIdentity));
    assert_eq!(voting.voter_points(5), None);
    identity.create_identity(5, [9u8; 32]);
    assert_eq!(voting.register_voter(&identity, 5), Ok(()));
    assert_eq!(voting.voter_points(5), Some(100));
    assert_eq!(voting.register_voter(&identity, 5), Err(Error::VoterAlreadyRegistered));
    assert_eq!(voting.voter_points(5), Some(100));
    // without an identity the earlier balance does not matter
    identity.delete_identity(5).unwrap();
    assert_eq!(voting.register_voter(&identity, 5), Err(Error::NoIdentity));
    assert_eq!(voting.register_voter(&identity, 6), Err(Error::NoIdentity));

    assert_eq!(voting.do_register_voter(false, 7), Err(Error::NoIdentity));
    assert_eq!(voting.do_register_voter(true, 7), Ok(()));
    assert_eq!(voting.do_register_voter(true, 7), Err(Error::VoterAlreadyRegistered));
    assert_eq!(voting.do_register_voter(false, 7), Err(Error::NoIdentity));
}

#[test]
fn budget_is_the_square_of_the_maximum_votes() {
    let mut voting = Pallet::new(Config { max_votes: 7, ..config(1) });
    assert_eq!(voting.register_voter(&Everybody, 1), Ok(()));
    assert_eq!(voting.voter_points(1), Some(49));
    assert_eq!(voting.config().max_votes, 7);
}

#[test]
fn queue_is_first_in_first_out() {
    let mut voting = engine(Config { proposal_queue_size: 5, ..config(2) }, vec![1, 2]);
    for body in [vec![1u8], vec![2], vec![3], vec![4], vec![5]] {
        assert!(voting.submit_proposal(2, body).is_ok());
    }
    assert_eq!(voting.submit_proposal(1, vec![6]), Err(Error::ProposalQueueFull));
    let events = voting.on_initialize(2);
    assert_eq!(events.started, Some(Event::ReferendumStarted(0, vec![vec![1], vec![2]])));
    assert_eq!(voting.queued_proposals(), &vec![vec![3u8], vec![4], vec![5]]);
    assert_eq!(voting.referendum_info(0, 0), Some(ongoing(&[1], 0, 0)));
    assert_eq!(voting.referendum_info(0, 1), Some(ongoing(&[2], 0, 0)));
    assert!(voting.submit_proposal(1, vec![6]).is_ok());
    voting.on_initialize(3);
    let events = voting.on_initialize(4);
    assert_eq!(events.started, Some(Event::ReferendumStarted(1, vec![vec![3], vec![4]])));
    assert_eq!(voting.queued_proposals(), &vec![vec![5u8], vec![6]]);
}

#[test]
fn proposal_at_the_length_limit_is_accepted() {
    let mut voting = engine(config(2), vec![1]);
    assert!(voting.submit_proposal(1, vec![0u8; 50]).is_ok());
    assert_eq!(voting.submit_proposal(1, vec![0u8; 51]), Err(Error::ProposalTooLong));
    // too long is told before full
    assert!(voting.submit_proposal(1, vec![]).is_ok());
    assert_eq!(voting.submit_proposal(1, vec![0u8; 51]), Err(Error::ProposalTooLong));
    assert_eq!(voting.submit_proposal(1, vec![0u8; 50]), Err(Error::ProposalQueueFull));
    assert_eq!(voting.queued_proposals().len(), 2);
}

#[test]
fn referendum_waits_for_enough_proposals() {
    let mut voting = engine(config(2), vec![1]);
    voting.submit_proposal(1, vec![1]).unwrap();
    let events = voting.on_initialize(2);
    assert_eq!(
        events,
        TickEvents {
            ended: None,
            started: None,
            skipped: Some(Error::NotEnoughProposalsInQueue),
        }
    );
    assert_eq!(voting.active_referendum(), None);
    assert_eq!(voting.queued_proposals().len(), 1);
    voting.submit_proposal(1, vec![2]).unwrap();
    // enough proposals, but no launch tick
    let events = voting.on_initialize(3);
    assert_eq!(events, TickEvents { ended: None, started: None, skipped: None });
    assert_eq!(voting.active_referendum(), None);
    let events = voting.on_initialize(4);
    assert!(events.started.is_some());
    assert_eq!(events.skipped, None);
    assert_eq!(voting.referendum_ends_at(), 5);
}

#[test]
fn votes_need_an_open_referendum_and_a_vote_for_every_slot() {
    let mut voting = engine(config(2), vec![1]);
    assert_eq!(voting.submit_votes(2, vec![]), Err(Error::NotAVoter));
    assert_eq!(
        voting.submit_votes(1, vec![(1, Vote::Aye), (1, Vote::Aye)]),
        Err(Error::NoActiveReferendum)
    );
    voting.submit_proposal(1, vec![1]).unwrap();
    voting.submit_proposal(1, vec![2]).unwrap();
    voting.on_initialize(2);
    assert_eq!(voting.submit_votes(1, vec![]), Err(Error::MissingVotes));
    assert_eq!(
        voting.submit_votes(1, vec![(1, Vote::Aye), (1, Vote::Aye), (1, Vote::Aye)]),
        Err(Error::MissingVotes)
    );
    // a ballot that is too short is told before one that is too heavy
    assert_eq!(voting.submit_votes(1, vec![(4000000000, Vote::Aye)]), Err(Error::MissingVotes));
    assert_eq!(
        voting.submit_votes(1, vec![(4000000000, Vote::Aye), (4000000000, Vote::Nay)]),
        Err(Error::NotEnoughPoints)
    );
    assert_eq!(voting.voter_points(1), Some(100));
}

#[test]
fn ballot_is_gated_by_the_square_of_its_combined_weight() {
    let mut voting = engine(config(2), vec![1, 2]);
    voting.submit_proposal(1, vec![1]).unwrap();
    voting.submit_proposal(1, vec![2]).unwrap();
    voting.on_initialize(2);
    // 6 + 5 = 11 and 121 > 100, though 36 + 25 = 61 would be covered
    assert_eq!(
        voting.submit_votes(1, vec![(6, Vote::Aye), (5, Vote::Nay)]),
        Err(Error::NotEnoughPoints)
    );
    assert_eq!(voting.voter_points(1), Some(100));
    // 5 + 5 = 10 and 100 <= 100; the price is 25 + 25
    assert!(voting.submit_votes(1, vec![(5, Vote::Aye), (5, Vote::Nay)]).is_ok());
    assert_eq!(voting.voter_points(1), Some(50));
    // a ballot of no weight costs nothing and leaves the voter free to vote again
    assert!(voting.submit_votes(2, vec![(0, Vote::Aye), (0, Vote::Nay)]).is_ok());
    assert_eq!(voting.voter_points(2), Some(100));
    assert!(voting.submit_votes(2, vec![(1, Vote::Aye), (0, Vote::Nay)]).is_ok());
    assert_eq!(voting.voter_points(2), Some(99));
    assert_eq!(
        voting.submit_votes(2, vec![(1, Vote::Aye), (0, Vote::Nay)]),
        Err(Error::AlreadyVoted)
    );
    assert_eq!(voting.referendum_info(0, 0).unwrap().get_aye_votes(), 6);
    assert_eq!(voting.referendum_info(0, 1).unwrap().get_nay_votes(), 5);
}

#[test]
fn tie_is_not_approved() {
    let mut voting = engine(config(2), vec![1, 2]);
    voting.submit_proposal(1, vec![1]).unwrap();
    voting.submit_proposal(1, vec![2]).unwrap();
    voting.on_initialize(2);
    voting.submit_votes(1, vec![(3, Vote::Aye), (2, Vote::Nay)]).unwrap();
    voting.submit_votes(2, vec![(3, Vote::Nay), (3, Vote::Aye)]).unwrap();
    let events = voting.on_initialize(3);
    assert_eq!(
        events.ended,
        Some(Event::ReferendumEnded(0, vec![finished(false, 3), finished(true, 3)]))
    );
}

#[test]
fn finished_outcomes_never_change() {
    let mut voting = engine(config(1), vec![1, 2, 3]);
    voting.submit_proposal(1, vec![1]).unwrap();
    voting.submit_proposal(1, vec![2]).unwrap();
    voting.on_initialize(2);
    voting.submit_votes(1, vec![(4, Vote::Aye)]).unwrap();
    voting.on_initialize(3);
    let outcome = voting.referendum_info(0, 0);
    assert_eq!(outcome, Some(finished(true, 3)));

    assert_eq!(voting.submit_votes(2, vec![(4, Vote::Nay)]), Err(Error::NoActiveReferendum));
    assert_eq!(voting.referendum_info(0, 0), outcome);
    voting.on_initialize(4);
    assert_eq!(voting.referendum_count(), 1);
    assert_eq!(voting.active_referendum(), Some(()));
    voting.submit_votes(2, vec![(9, Vote::Nay)]).unwrap();
    voting.submit_proposal(3, vec![3]).unwrap();
    voting.register_voter(&Everybody, 4).unwrap();
    assert_eq!(voting.referendum_info(0, 0), outcome);
    voting.on_initialize(5);
    assert_eq!(voting.referendum_info(0, 0), outcome);
    assert_eq!(voting.referendum_info(1, 0), Some(finished(false, 5)));
    voting.on_initialize(6);
    assert_eq!(voting.active_referendum(), Some(()));
    assert_eq!(voting.referendum_count(), 2);
    assert_eq!(voting.referendum_info(0, 0), outcome);
    assert_eq!(voting.referendum_info(1, 0), Some(finished(false, 5)));
}

#[test]
fn overflow_stops_the_count_and_keeps_the_slots_before_it() {
    // 65537 voters with 65535 votes each bring the second slot to the limit:
    // 65535 * 65537 = 4294967295
    let mut voting = Pallet::new(Config { max_votes: 65535, ..config(2) });
    for who in 0..=65537u64 {
        voting.register_voter(&Everybody, who).unwrap();
    }
    voting.submit_proposal(0, vec![1]).unwrap();
    voting.submit_proposal(0, vec![2]).unwrap();
    voting.on_initialize(2);
    for who in 0..65537u64 {
        assert!(voting.submit_votes(who, vec![(0, Vote::Nay), (65535, Vote::Aye)]).is_ok());
        assert_eq!(voting.voter_points(who), Some(0));
    }
    assert_eq!(voting.referendum_info(0, 1), Some(ongoing(&[2], u32::MAX, 0)));
    assert_eq!(voting.voter_points(65537), Some(4294836225));

    assert_eq!(
        voting.submit_votes(65537, vec![(3, Vote::Nay), (1, Vote::Aye)]),
        Err(Error::Overflow)
    );
    // the first slot stays counted and paid for
    assert_eq!(voting.referendum_info(0, 0), Some(ongoing(&[1], 0, 3)));
    assert_eq!(voting.referendum_info(0, 1), Some(ongoing(&[2], u32::MAX, 0)));
    assert_eq!(voting.voter_points(65537), Some(4294836225 - 9));
    assert_eq!(
        voting.submit_votes(65537, vec![(1, Vote::Nay), (0, Vote::Aye)]),
        Err(Error::AlreadyVoted)
    );
}

#[test]
fn overflow_on_the_first_slot_changes_nothing() {
    let mut voting = Pallet::new(Config { max_votes: 65535, ..config(1) });
    for who in 0..=65537u64 {
        voting.register_voter(&Everybody, who).unwrap();
    }
    voting.submit_proposal(0, vec![1]).unwrap();
    voting.on_initialize(2);
    for who in 0..65537u64 {
        assert!(voting.submit_votes(who, vec![(65535, Vote::Nay)]).is_ok());
    }
    assert_eq!(voting.submit_votes(65537, vec![(1, Vote::Nay)]), Err(Error::Overflow));
    assert_eq!(voting.voter_points(65537), Some(4294836225));
    assert_eq!(voting.referendum_info(0, 0), Some(ongoing(&[1], 0, u32::MAX)));
    // the other counter still has room
    assert!(voting.submit_votes(65537, vec![(1, Vote::Aye)]).is_ok());
    assert_eq!(voting.referendum_info(0, 0), Some(ongoing(&[1], 1, u32::MAX)));
}

#[test]
fn launch_while_a_referendum_is_open_replaces_it() {
    let mut voting =
        engine(Config { launch_period: 2, voting_period: 5, ..config(1) }, vec![1]);
    voting.submit_proposal(1, vec![1]).unwrap();
    voting.submit_proposal(1, vec![2]).unwrap();
    voting.on_initialize(2);
    assert_eq!(voting.referendum_ends_at(), 7);
    voting.submit_votes(1, vec![(2, Vote::Aye)]).unwrap();
    assert_eq!(voting.referendum_info(0, 0), Some(ongoing(&[1], 2, 0)));
    voting.on_initialize(3);
    let events = voting.on_initialize(4);
    assert_eq!(events.ended, None);
    assert_eq!(events.started, Some(Event::ReferendumStarted(0, vec![vec![2]])));
    assert_eq!(voting.referendum_count(), 0);
    assert_eq!(voting.referendum_ends_at(), 9);
    assert_eq!(voting.referendum_info(0, 0), Some(ongoing(&[2], 0, 0)));
}

#[test]
fn closing_and_opening_on_the_same_tick() {
    let mut voting =
        engine(
            Config { launch_period: 2, voting_period: 2, proposal_queue_size: 4, ..config(1) },
            vec![1],
        );
    voting.submit_proposal(1, vec![1]).unwrap();
    voting.submit_proposal(1, vec![2]).unwrap();
    voting.on_initialize(2);
    voting.on_initialize(3);
    let events = voting.on_initialize(4);
    assert_eq!(events.ended, Some(Event::ReferendumEnded(0, vec![finished(false, 4)])));
    assert_eq!(events.started, Some(Event::ReferendumStarted(1, vec![vec![2]])));
    assert_eq!(voting.referendum_count(), 1);
    assert_eq!(voting.active_referendum(), Some(()));
    assert_eq!(voting.referendum_ends_at(), 6);
    assert_eq!(voting.referendum_info(1, 0), Some(ongoing(&[2], 0, 0)));
}

#[test]
fn end_of_voting_stops_at_the_last_tick() {
    let mut voting =
        engine(Config { launch_period: 1, voting_period: 10, ..config(1) }, vec![1]);
    voting.submit_proposal(1, vec![1]).unwrap();
    voting.on_initialize(u64::MAX - 3);
    assert_eq!(voting.referendum_ends_at(), u64::MAX);
    assert_eq!(voting.active_referendum(), Some(()));
    voting.on_initialize(u64::MAX);
    assert_eq!(voting.referendum_info(0, 0), Some(finished(false, u64::MAX)));
}

#[test]
fn referendum_without_slots_opens_on_an_empty_queue() {
    let mut voting = engine(config(0), vec![1]);
    let events = voting.on_initialize(2);
    assert_eq!(events.started, Some(Event::ReferendumStarted(0, vec![])));
    assert_eq!(voting.submit_votes(1, vec![]), Ok(Event::VoteSubmitted(vec![], 1)));
    assert_eq!(voting.submit_votes(1, vec![(1, Vote::Aye)]), Err(Error::MissingVotes));
    let events = voting.on_initialize(3);
    assert_eq!(events.ended, Some(Event::ReferendumEnded(0, vec![])));
    assert_eq!(voting.referendum_count(), 1);
}

#[test]
fn genesis_fails_on_a_voter_listed_twice() {
    let mut identity = basic_identity::Pallet::new();
    let built = GenesisConfig { voters: vec![1, 2, 1] }.build(config(2), &mut identity);
    assert_eq!(built.err(), Some(Error::VoterAlreadyRegistered));
    assert_eq!(identity.identities(1), Some([0u8; 32]));
}

#[test]
fn genesis_fails_where_the_identity_gate_denies_a_voter() {
    let built = GenesisConfig { voters: vec![1] }.build(config(2), &mut Nobody);
    assert_eq!(built.err(), Some(Error::NoIdentity));
    assert!(GenesisConfig { voters: vec![] }.build(config(2), &mut Nobody).is_ok());
}

#[test]
fn genesis_without_voters_by_default() {
    let genesis = GenesisConfig::default();
    assert!(genesis.voters.is_empty());
    let mut identity = basic_identity::Pallet::new();
    let voting = genesis.build(config(2), &mut identity).unwrap();
    assert_eq!(voting.voter_points(0), None);
    assert_eq!(voting.referendum_count(), 0);
    assert_eq!(voting.referendum_ends_at(), 0);
    assert_eq!(voting.active_referendum(), None);
    assert!(voting.queued_proposals().is_empty());
}

#[test]
fn parameters_are_checked() {
    assert!(config(2).is_valid());
    assert!(!Config { launch_period: 0, ..config(2) }.is_valid());
    assert!(Config { max_votes: 65535, ..config(2) }.is_valid());
    assert!(!Config { max_votes: 65536, ..config(2) }.is_valid());
    assert!(Config { max_votes: 0, voting_period: 0, proposals_per_referendum: 0, ..config(2) }
        .is_valid());
    assert_eq!(config(2).voter_budget(), 100);
    assert_eq!(Config { max_votes: 65535, ..config(2) }.voter_budget(), 4294836225);
}
