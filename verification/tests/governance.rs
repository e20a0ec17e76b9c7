use depin_network::constants::VOTING_PERIOD;
use depin_network::errors::DePINError;
use depin_network::governance::{create_proposal, execute_proposal, vote_proposal};
use depin_network::registry::initialize;
use depin_network::state::{AccountId, Proposal, ProposalType, UserProfile, Vote};

fn user(id: u64) -> AccountId {
    AccountId { id }
}

fn registry_with_threshold(threshold: u64) -> depin_network::state::NetworkState {
    let mut registry = initialize(user(1), user(2), 0, 9, 0);
    registry.governance_threshold = threshold;
    registry
}

fn profile_with_stake(id: u64, staked: u64) -> UserProfile {
    let mut profile = UserProfile::new(user(id), 0);
    profile.total_staked = staked;
    profile
}

fn open_proposal(yes: u64, no: u64, start: i64, end: i64) -> Proposal {
    Proposal {
        id: 0,
        proposer: user(5),
        title: b"t".to_vec(),
        description: b"d".to_vec(),
        proposal_type: ProposalType::ParameterChange,
        yes_votes: yes,
        no_votes: no,
        total_votes: 0,
        start_time: start,
        end_time: end,
        executed: false,
        approved: false,
    }
}

#[test]
fn proposal_needs_threshold_stake() {
    let mut registry = registry_with_threshold(1000);
    let rich = profile_with_stake(10, 1000);
    let poor = profile_with_stake(11, 999);
    let ok = create_proposal(
        &mut registry,
        &rich,
        user(10),
        b"raise rates".to_vec(),
        b"why not".to_vec(),
        ProposalType::RewardRateChange,
        50,
    );
    assert!(ok.is_ok());
    let rejected = create_proposal(
        &mut registry,
        &poor,
        user(11),
        b"raise rates".to_vec(),
        b"why not".to_vec(),
        ProposalType::RewardRateChange,
        50,
    );
    assert_eq!(rejected.unwrap_err(), DePINError::InsufficientTokensForProposal);
}

#[test]
fn proposal_fields_and_sequence() {
    let mut registry = registry_with_threshold(0);
    let profile = profile_with_stake(10, 0);
    let now = 1_000;
    let p = create_proposal(
        &mut registry,
        &profile,
        user(10),
        b"first".to_vec(),
        b"body".to_vec(),
        ProposalType::TreasurySpend,
        now,
    )
    .unwrap();
    assert_eq!(p.id, 0);
    assert_eq!(p.start_time, now);
    assert_eq!(p.end_time, now + VOTING_PERIOD);
    assert_eq!(p.yes_votes, 0);
    assert_eq!(p.no_votes, 0);
    assert_eq!(p.total_votes, 0);
    assert!(!p.executed);
    assert!(!p.approved);
    assert_eq!(registry.proposals_count, 1);
    let q = create_proposal(
        &mut registry,
        &profile,
        user(10),
        b"second".to_vec(),
        b"body".to_vec(),
        ProposalType::TreasurySpend,
        now,
    )
    .unwrap();
    assert_eq!(q.id, 1);
    assert_eq!(registry.proposals_count, 2);
}

#[test]
fn oversize_title_rejected_boundary_accepted() {
    let mut registry = registry_with_threshold(0);
    let profile = profile_with_stake(10, 0);
    let at_max = create_proposal(
        &mut registry,
        &profile,
        user(10),
        vec![b'a'; 100],
        vec![b'b'; 500],
        ProposalType::ParameterChange,
        0,
    );
    assert!(at_max.is_ok());
    let over_title = create_proposal(
        &mut registry,
        &profile,
        user(10),
        vec![b'a'; 101],
        b"d".to_vec(),
        ProposalType::ParameterChange,
        0,
    );
    assert_eq!(over_title.unwrap_err(), DePINError::TitleTooLong);
    let over_description = create_proposal(
        &mut registry,
        &profile,
        user(10),
        b"t".to_vec(),
        vec![b'b'; 501],
        ProposalType::ParameterChange,
        0,
    );
    assert_eq!(over_description.unwrap_err(), DePINError::DescriptionTooLong);
}

#[test]
fn vote_snapshots_power_and_moves_one_tally() {
    let mut proposal = open_proposal(0, 0, 0, 100);
    let mut profile = profile_with_stake(10, 70);
    let ballot = vote_proposal(&mut proposal, &mut profile, false, user(10), user(99), Vote::Yes, 50)
        .unwrap();
    assert_eq!(ballot.voting_power, 70);
    assert_eq!(ballot.timestamp, 50);
    assert_eq!(ballot.voter, user(10));
    assert_eq!(ballot.proposal, user(99));
    assert_eq!(proposal.yes_votes, 70);
    assert_eq!(proposal.no_votes, 0);
    assert_eq!(proposal.total_votes, 1);
    assert_eq!(profile.governance_votes, 1);
}

#[test]
fn abstain_counts_ballot_but_moves_no_tally() {
    let mut proposal = open_proposal(0, 0, 0, 100);
    let mut profile = profile_with_stake(10, 70);
    vote_proposal(&mut proposal, &mut profile, false, user(10), user(99), Vote::Abstain, 50)
        .unwrap();
    assert_eq!(proposal.yes_votes, 0);
    assert_eq!(proposal.no_votes, 0);
    assert_eq!(proposal.total_votes, 1);
}

#[test]
fn second_ballot_rejected_and_tallies_unchanged() {
    let mut proposal = open_proposal(0, 0, 0, 100);
    let mut profile = profile_with_stake(10, 70);
    vote_proposal(&mut proposal, &mut profile, false, user(10), user(99), Vote::Yes, 50).unwrap();
    let again =
        vote_proposal(&mut proposal, &mut profile, true, user(10), user(99), Vote::No, 60);
    assert_eq!(again.unwrap_err(), DePINError::AlreadyVoted);
    assert_eq!(proposal.yes_votes, 70);
    assert_eq!(proposal.no_votes, 0);
    assert_eq!(proposal.total_votes, 1);
    assert_eq!(profile.governance_votes, 1);
}

#[test]
fn vote_outside_window_rejected() {
    let mut proposal = open_proposal(0, 0, 10, 100);
    let mut profile = profile_with_stake(10, 70);
    let early = vote_proposal(&mut proposal, &mut profile, false, user(10), user(99), Vote::Yes, 9);
    assert_eq!(early.unwrap_err(), DePINError::VotingPeriodEnded);
    let late =
        vote_proposal(&mut proposal, &mut profile, false, user(10), user(99), Vote::Yes, 101);
    assert_eq!(late.unwrap_err(), DePINError::VotingPeriodEnded);
}

#[test]
fn vote_on_executed_proposal_rejected() {
    let mut proposal = open_proposal(0, 0, 0, 100);
    proposal.executed = true;
    let mut profile = profile_with_stake(10, 70);
    let r = vote_proposal(&mut proposal, &mut profile, false, user(10), user(99), Vote::Yes, 50);
    assert_eq!(r.unwrap_err(), DePINError::ProposalAlreadyExecuted);
    assert_eq!(proposal.total_votes, 0);
}

#[test]
fn vote_without_stake_rejected() {
    let mut proposal = open_proposal(0, 0, 0, 100);
    let mut profile = profile_with_stake(10, 0);
    let r = vote_proposal(&mut proposal, &mut profile, false, user(10), user(99), Vote::Yes, 50);
    assert_eq!(r.unwrap_err(), DePINError::NoVotingPower);
}

#[test]
fn execute_before_end_rejected() {
    let mut proposal = open_proposal(70, 30, 0, 100);
    let r = execute_proposal(&mut proposal, 100);
    assert_eq!(r, Err(DePINError::VotingStillActive));
    assert!(!proposal.executed);
}

#[test]
fn execute_once_then_always_rejected() {
    let mut proposal = open_proposal(70, 30, 0, 100);
    assert_eq!(execute_proposal(&mut proposal, 101), Ok(()));
    assert!(proposal.executed);
    let again = execute_proposal(&mut proposal, 102);
    assert_eq!(again, Err(DePINError::ProposalAlreadyExecuted));
    let much_later = execute_proposal(&mut proposal, 1_000_000);
    assert_eq!(much_later, Err(DePINError::ProposalAlreadyExecuted));
}

#[test]
fn strict_majority_approves_seventy_thirty() {
    let mut proposal = open_proposal(70, 30, 0, 100);
    execute_proposal(&mut proposal, 101).unwrap();
    assert!(proposal.approved);
}

#[test]
fn even_split_is_not_approved() {
    let mut proposal = open_proposal(50, 50, 0, 100);
    execute_proposal(&mut proposal, 101).unwrap();
    assert!(!proposal.approved);
}

#[test]
fn execute_with_no_weighted_votes_rejected() {
    let mut proposal = open_proposal(0, 0, 0, 100);
    let r = execute_proposal(&mut proposal, 101);
    assert_eq!(r, Err(DePINError::NoVotesCast));
    assert!(!proposal.executed);
}
