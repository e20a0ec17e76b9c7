use depin_network::codec::{
    decode_network_state, decode_proposal, decode_staking_pool, decode_user_profile,
    decode_user_stake, decode_user_vote, encode_network_state, encode_proposal,
    encode_staking_pool, encode_user_profile, encode_user_stake, encode_user_vote,
};
use depin_network::governance::UserVote;
use depin_network::state::{
    AccountId, NetworkState, PoolType, Proposal, ProposalType, StakingPool, UserProfile,
    UserStake, Vote,
};

fn user(id: u64) -> AccountId {
    AccountId { id }
}

fn sample_stake() -> UserStake {
    UserStake {
        user: user(11),
        pool: user(22),
        amount: 123_456_789_000,
        start_time: -5,
        last_reward_claim: 987_654_321,
        pending_rewards: u64::MAX,
    }
}

fn sample_pool() -> StakingPool {
    StakingPool {
        pool_type: PoolType::LiquidityMining,
        total_staked: 10,
        reward_rate: 2500,
        min_stake_amount: 1,
        max_capacity: u64::MAX,
        lock_period: 14 * 24 * 3600,
        total_rewards_paid: 7,
        is_active: true,
    }
}

fn sample_vote() -> UserVote {
    UserVote {
        voter: user(3),
        proposal: user(4),
        vote: Vote::Abstain,
        voting_power: 900,
        timestamp: i64::MIN,
    }
}

fn sample_profile() -> UserProfile {
    UserProfile {
        owner: user(5),
        total_earned: 1,
        total_staked: 2,
        reputation_score: u16::MAX,
        last_activity: i64::MAX,
        wifi_hotspots: 3,
        logistics_partners: 4,
        farms: 5,
        governance_votes: 6,
    }
}

fn sample_registry() -> NetworkState {
    NetworkState {
        authority: user(1),
        mint: user(2),
        total_supply: 11,
        total_staked: 12,
        wifi_hotspots_count: 13,
        logistics_partners_count: 14,
        farms_count: 15,
        healthcare_providers_count: 16,
        tax_points_count: 17,
        wifi_reward_rate: 18,
        logistics_reward_rate: 19,
        agriculture_reward_rate: 20,
        healthcare_reward_rate: 21,
        taxation_reward_rate: 22,
        last_reward_distribution: -23,
        governance_threshold: 24,
        proposals_count: 25,
    }
}

fn sample_proposal(title: Vec<u8>, description: Vec<u8>) -> Proposal {
    Proposal {
        id: 9,
        proposer: user(8),
        title,
        description,
        proposal_type: ProposalType::NetworkExpansion,
        yes_votes: 70,
        no_votes: 30,
        total_votes: 2,
        start_time: 100,
        end_time: 704_900,
        executed: true,
        approved: false,
    }
}

#[test]
fn user_stake_roundtrip() {
    let record = sample_stake();
    let mut buf = Vec::new();
    encode_user_stake(&mut buf, &record);
    let (decoded, end) = decode_user_stake(&buf, 0).unwrap();
    assert_eq!(decoded, record);
    assert_eq!(end, buf.len());
}

#[test]
fn staking_pool_roundtrip() {
    let record = sample_pool();
    let mut buf = Vec::new();
    encode_staking_pool(&mut buf, &record);
    let (decoded, end) = decode_staking_pool(&buf, 0).unwrap();
    assert_eq!(decoded, record);
    assert_eq!(end, buf.len());
}

#[test]
fn user_vote_roundtrip() {
    let record = sample_vote();
    let mut buf = Vec::new();
    encode_user_vote(&mut buf, &record);
    let (decoded, end) = decode_user_vote(&buf, 0).unwrap();
    assert_eq!(decoded, record);
    assert_eq!(end, buf.len());
}

#[test]
fn user_profile_roundtrip() {
    let record = sample_profile();
    let mut buf = Vec::new();
    encode_user_profile(&mut buf, &record);
    let (decoded, end) = decode_user_profile(&buf, 0).unwrap();
    assert_eq!(decoded, record);
    assert_eq!(end, buf.len());
}

#[test]
fn network_state_roundtrip() {
    let record = sample_registry();
    let mut buf = Vec::new();
    encode_network_state(&mut buf, &record);
    let (decoded, end) = decode_network_state(&buf, 0).unwrap();
    assert_eq!(decoded, record);
    assert_eq!(end, buf.len());
}

#[test]
fn proposal_roundtrip() {
    let record = sample_proposal(b"expand the mesh".to_vec(), b"north first".to_vec());
    let mut buf = Vec::new();
    encode_proposal(&mut buf, &record);
    let (decoded, end) = decode_proposal(&buf, 0).unwrap();
    assert_eq!(decoded, record);
    assert_eq!(end, buf.len());
}

#[test]
fn proposal_roundtrip_boundary_length_text() {
    let record = sample_proposal(vec![b'T'; 100], vec![b'D'; 500]);
    let mut buf = Vec::new();
    encode_proposal(&mut buf, &record);
    let (decoded, end) = decode_proposal(&buf, 0).unwrap();
    assert_eq!(decoded, record);
    assert_eq!(end, buf.len());
}

#[test]
fn proposal_roundtrip_empty_text() {
    let record = sample_proposal(Vec::new(), Vec::new());
    let mut buf = Vec::new();
    encode_proposal(&mut buf, &record);
    let (decoded, _) = decode_proposal(&buf, 0).unwrap();
    assert_eq!(decoded, record);
}

#[test]
fn records_roundtrip_at_offset_and_in_sequence() {
    let stake = sample_stake();
    let pool = sample_pool();
    let mut buf = vec![0xAB, 0xCD];
    encode_user_stake(&mut buf, &stake);
    encode_staking_pool(&mut buf, &pool);
    let (decoded_stake, mid) = decode_user_stake(&buf, 2).unwrap();
    assert_eq!(decoded_stake, stake);
    let (decoded_pool, end) = decode_staking_pool(&buf, mid).unwrap();
    assert_eq!(decoded_pool, pool);
    assert_eq!(end, buf.len());
}

#[test]
fn truncated_buffer_rejected() {
    let record = sample_stake();
    let mut buf = Vec::new();
    encode_user_stake(&mut buf, &record);
    buf.pop();
    assert!(decode_user_stake(&buf, 0).is_none());
    assert!(decode_user_stake(&[], 0).is_none());
}

#[test]
fn malformed_flag_byte_rejected() {
    let record = sample_pool();
    let mut buf = Vec::new();
    encode_staking_pool(&mut buf, &record);
    let last = buf.len() - 1;
    buf[last] = 2;
    assert!(decode_staking_pool(&buf, 0).is_none());
}

#[test]
fn malformed_tag_byte_rejected() {
    let record = sample_pool();
    let mut buf = Vec::new();
    encode_staking_pool(&mut buf, &record);
    buf[0] = 5;
    assert!(decode_staking_pool(&buf, 0).is_none());
}

#[test]
fn oversize_title_length_rejected_at_decode() {
    let record = sample_proposal(vec![b'T'; 100], b"d".to_vec());
    let mut buf = Vec::new();
    encode_proposal(&mut buf, &record);
    // The title length prefix sits after the two eight-byte identifiers;
    // raise it past the hard maximum.
    buf[16] = 101;
    assert!(decode_proposal(&buf, 0).is_none());
}
