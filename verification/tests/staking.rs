use depin_network::constants::{MIN_STAKE_AMOUNT, POOL_MAX_CAPACITY, UNIT_SCALE};
use depin_network::errors::DePINError;
use depin_network::registry::initialize;
use depin_network::staking::{
    claim_rewards, open_or_get_pool, open_position, stake_tokens, unstake_tokens,
};
use depin_network::state::{AccountId, PoolType, StakingPool, UserProfile, UserStake};

fn user(id: u64) -> AccountId {
    AccountId { id }
}

fn fresh_world(
    now: i64,
    pool_type: PoolType,
) -> (depin_network::state::NetworkState, StakingPool, UserStake, UserProfile) {
    let registry = initialize(user(1), user(2), 1_000_000_000 * UNIT_SCALE, 9, now);
    let pool = open_or_get_pool(None, pool_type);
    let position = open_position(user(10), user(20), now);
    let profile = UserProfile::new(user(10), now);
    (registry, pool, position, profile)
}

#[test]
fn wifi_pool_presets() {
    let pool = open_or_get_pool(None, PoolType::WiFiInfrastructure);
    assert_eq!(pool.reward_rate, 1200);
    assert_eq!(pool.min_stake_amount, MIN_STAKE_AMOUNT);
    assert_eq!(pool.max_capacity, POOL_MAX_CAPACITY);
    assert_eq!(pool.lock_period, 30 * 24 * 3600);
    assert_eq!(pool.total_staked, 0);
    assert_eq!(pool.total_rewards_paid, 0);
    assert!(pool.is_active);
}

#[test]
fn pool_presets_per_category() {
    assert_eq!(open_or_get_pool(None, PoolType::LogisticsOptimization).reward_rate, 1500);
    assert_eq!(open_or_get_pool(None, PoolType::LogisticsOptimization).lock_period, 90 * 24 * 3600);
    assert_eq!(open_or_get_pool(None, PoolType::AgricultureData).reward_rate, 1800);
    assert_eq!(open_or_get_pool(None, PoolType::AgricultureData).lock_period, 180 * 24 * 3600);
    assert_eq!(open_or_get_pool(None, PoolType::Governance).reward_rate, 800);
    assert_eq!(open_or_get_pool(None, PoolType::Governance).lock_period, 0);
    assert_eq!(open_or_get_pool(None, PoolType::LiquidityMining).reward_rate, 2500);
    assert_eq!(open_or_get_pool(None, PoolType::LiquidityMining).lock_period, 14 * 24 * 3600);
}

#[test]
fn open_or_get_pool_keeps_existing_state() {
    let mut pool = open_or_get_pool(None, PoolType::Governance);
    pool.total_staked = 777;
    pool.total_rewards_paid = 42;
    let again = open_or_get_pool(Some(pool.clone()), PoolType::Governance);
    assert_eq!(again, pool);
}

#[test]
fn stake_updates_all_four_balances() {
    let now = 1_000;
    let (mut registry, mut pool, mut position, mut profile) =
        fresh_world(now, PoolType::WiFiInfrastructure);
    let amount = 500 * UNIT_SCALE;
    let r = stake_tokens(&mut pool, &mut position, &mut registry, &mut profile, amount);
    assert_eq!(r, Ok(()));
    assert_eq!(pool.total_staked, amount);
    assert_eq!(position.amount, amount);
    assert_eq!(registry.total_staked, amount);
    assert_eq!(profile.total_staked, amount);
    assert_eq!(position.start_time, now);
    assert_eq!(position.last_reward_claim, now);
    assert_eq!(position.pending_rewards, 0);
}

#[test]
fn stake_zero_rejected() {
    let (mut registry, mut pool, mut position, mut profile) =
        fresh_world(0, PoolType::WiFiInfrastructure);
    let r = stake_tokens(&mut pool, &mut position, &mut registry, &mut profile, 0);
    assert_eq!(r, Err(DePINError::InvalidStakeAmount));
    assert_eq!(pool.total_staked, 0);
}

#[test]
fn stake_below_minimum_rejected_and_balances_unchanged() {
    let (mut registry, mut pool, mut position, mut profile) =
        fresh_world(0, PoolType::WiFiInfrastructure);
    let r = stake_tokens(&mut pool, &mut position, &mut registry, &mut profile, MIN_STAKE_AMOUNT - 1);
    assert_eq!(r, Err(DePINError::BelowMinimumStake));
    assert_eq!(pool.total_staked, 0);
    assert_eq!(position.amount, 0);
    assert_eq!(registry.total_staked, 0);
    assert_eq!(profile.total_staked, 0);
}

#[test]
fn stake_past_capacity_rejected_and_balances_unchanged() {
    let (mut registry, mut pool, mut position, mut profile) =
        fresh_world(0, PoolType::WiFiInfrastructure);
    pool.total_staked = POOL_MAX_CAPACITY - MIN_STAKE_AMOUNT + 1;
    let r = stake_tokens(&mut pool, &mut position, &mut registry, &mut profile, MIN_STAKE_AMOUNT);
    assert_eq!(r, Err(DePINError::PoolCapacityExceeded));
    assert_eq!(pool.total_staked, POOL_MAX_CAPACITY - MIN_STAKE_AMOUNT + 1);
    assert_eq!(position.amount, 0);
    assert_eq!(registry.total_staked, 0);
    assert_eq!(profile.total_staked, 0);
}

#[test]
fn stake_exactly_to_capacity_accepted() {
    let (mut registry, mut pool, mut position, mut profile) =
        fresh_world(0, PoolType::WiFiInfrastructure);
    pool.total_staked = POOL_MAX_CAPACITY - MIN_STAKE_AMOUNT;
    let r = stake_tokens(&mut pool, &mut position, &mut registry, &mut profile, MIN_STAKE_AMOUNT);
    assert_eq!(r, Ok(()));
    assert_eq!(pool.total_staked, POOL_MAX_CAPACITY);
}

#[test]
fn stake_into_inactive_pool_rejected() {
    let (mut registry, mut pool, mut position, mut profile) =
        fresh_world(0, PoolType::WiFiInfrastructure);
    pool.is_active = false;
    let r = stake_tokens(&mut pool, &mut position, &mut registry, &mut profile, MIN_STAKE_AMOUNT);
    assert_eq!(r, Err(DePINError::PoolInactive));
}

#[test]
fn top_up_keeps_start_time() {
    let (mut registry, mut pool, mut position, mut profile) =
        fresh_world(1_000, PoolType::WiFiInfrastructure);
    stake_tokens(&mut pool, &mut position, &mut registry, &mut profile, MIN_STAKE_AMOUNT).unwrap();
    stake_tokens(&mut pool, &mut position, &mut registry, &mut profile, MIN_STAKE_AMOUNT).unwrap();
    assert_eq!(position.amount, 2 * MIN_STAKE_AMOUNT);
    assert_eq!(position.start_time, 1_000);
}

#[test]
fn unstake_zero_rejected() {
    let (mut registry, mut pool, mut position, mut profile) =
        fresh_world(0, PoolType::Governance);
    stake_tokens(&mut pool, &mut position, &mut registry, &mut profile, MIN_STAKE_AMOUNT).unwrap();
    let r = unstake_tokens(&mut pool, &mut position, &mut registry, &mut profile, 0, 10);
    assert_eq!(r, Err(DePINError::InvalidStakeAmount));
}

#[test]
fn unstake_more_than_position_rejected() {
    let (mut registry, mut pool, mut position, mut profile) =
        fresh_world(0, PoolType::Governance);
    stake_tokens(&mut pool, &mut position, &mut registry, &mut profile, MIN_STAKE_AMOUNT).unwrap();
    let r = unstake_tokens(
        &mut pool,
        &mut position,
        &mut registry,
        &mut profile,
        MIN_STAKE_AMOUNT + 1,
        10,
    );
    assert_eq!(r, Err(DePINError::InsufficientStake));
    assert_eq!(position.amount, MIN_STAKE_AMOUNT);
    assert_eq!(pool.total_staked, MIN_STAKE_AMOUNT);
}

#[test]
fn unstake_before_lock_expires_rejected() {
    let now = 1_000;
    let (mut registry, mut pool, mut position, mut profile) =
        fresh_world(now, PoolType::WiFiInfrastructure);
    stake_tokens(&mut pool, &mut position, &mut registry, &mut profile, MIN_STAKE_AMOUNT).unwrap();
    let just_before = now + 30 * 24 * 3600 - 1;
    let r = unstake_tokens(
        &mut pool,
        &mut position,
        &mut registry,
        &mut profile,
        MIN_STAKE_AMOUNT,
        just_before,
    );
    assert_eq!(r, Err(DePINError::StakeLocked));
    assert_eq!(position.amount, MIN_STAKE_AMOUNT);
}

#[test]
fn unstake_at_lock_expiry_succeeds() {
    let now = 1_000;
    let (mut registry, mut pool, mut position, mut profile) =
        fresh_world(now, PoolType::WiFiInfrastructure);
    stake_tokens(&mut pool, &mut position, &mut registry, &mut profile, MIN_STAKE_AMOUNT).unwrap();
    let unlock = now + 30 * 24 * 3600;
    let r = unstake_tokens(
        &mut pool,
        &mut position,
        &mut registry,
        &mut profile,
        MIN_STAKE_AMOUNT,
        unlock,
    );
    assert_eq!(r, Ok(()));
    assert_eq!(position.amount, 0);
    assert_eq!(pool.total_staked, 0);
    assert_eq!(registry.total_staked, 0);
    assert_eq!(profile.total_staked, 0);
    assert_eq!(position.last_reward_claim, unlock);
}

#[test]
fn unstake_from_unlocked_pool_any_time() {
    let (mut registry, mut pool, mut position, mut profile) =
        fresh_world(0, PoolType::Governance);
    stake_tokens(&mut pool, &mut position, &mut registry, &mut profile, MIN_STAKE_AMOUNT).unwrap();
    let r = unstake_tokens(&mut pool, &mut position, &mut registry, &mut profile, 1, 1);
    assert_eq!(r, Ok(()));
    assert_eq!(position.amount, MIN_STAKE_AMOUNT - 1);
}

#[test]
fn claim_without_stake_rejected() {
    let (_registry, mut pool, mut position, mut profile) =
        fresh_world(0, PoolType::WiFiInfrastructure);
    let r = claim_rewards(&mut pool, &mut position, &mut profile, 100);
    assert_eq!(r, Err(DePINError::NoStakeFound));
}

#[test]
fn thirty_day_wifi_claim_truncates_to_nothing() {
    // 500 whole tokens at 1200 basis points for 30 days: the per-second
    // rate 1200 / (365*24*3600*100) truncates to zero, so the accrued
    // reward is zero and the claim reports nothing to claim.
    let now = 1_000;
    let (mut registry, mut pool, mut position, mut profile) =
        fresh_world(now, PoolType::WiFiInfrastructure);
    stake_tokens(&mut pool, &mut position, &mut registry, &mut profile, 500 * UNIT_SCALE).unwrap();
    let after_lock = now + 30 * 24 * 3600;
    let r = claim_rewards(&mut pool, &mut position, &mut profile, after_lock);
    assert_eq!(r, Err(DePINError::NoRewardsToClaim));
    assert_eq!(position.pending_rewards, 0);
    assert_eq!(profile.total_earned, 0);
    assert_eq!(pool.total_rewards_paid, 0);
}

#[test]
fn claim_pays_accrued_rewards() {
    // A rate of one unit per second per scaled token: 365*24*3600*100
    // basis points. One whole token staked for 1000 seconds earns
    // 10^9 * 1 * 1000 / 10^9 = 1000 units.
    let now = 0;
    let (_registry, mut pool, mut position, mut profile) =
        fresh_world(now, PoolType::Governance);
    pool.reward_rate = 365 * 24 * 3600 * 100;
    pool.min_stake_amount = 1;
    position.amount = UNIT_SCALE;
    let r = claim_rewards(&mut pool, &mut position, &mut profile, 1_000);
    assert_eq!(r, Ok(1_000));
    assert_eq!(position.pending_rewards, 0);
    assert_eq!(position.last_reward_claim, 1_000);
    assert_eq!(pool.total_rewards_paid, 1_000);
    assert_eq!(profile.total_earned, 1_000);
}

#[test]
fn unstake_accrues_into_pending_without_paying() {
    let now = 0;
    let (mut registry, mut pool, mut position, mut profile) =
        fresh_world(now, PoolType::Governance);
    pool.reward_rate = 365 * 24 * 3600 * 100;
    position.amount = UNIT_SCALE;
    pool.total_staked = UNIT_SCALE;
    registry.total_staked = UNIT_SCALE;
    profile.total_staked = UNIT_SCALE;
    let r = unstake_tokens(&mut pool, &mut position, &mut registry, &mut profile, 1, 500);
    assert_eq!(r, Ok(()));
    assert_eq!(position.pending_rewards, 500);
    assert_eq!(profile.total_earned, 0);
    assert_eq!(position.last_reward_claim, 500);
}
