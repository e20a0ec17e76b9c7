//! The staking pool manager: pool presets, position opening, stake,
//! unstake and claim.
//!
//! Each operation is an all-or-nothing transition over the records it
//! names: it validates, then either mutates every named record together
//! and returns `Ok`, or mutates nothing and returns the specific error.
//! The token movement that accompanies a successful stake or unstake is
//! the host's duty and must commit atomically with the record updates.

use vstd::prelude::*;
use crate::constants::{MIN_STAKE_AMOUNT, POOL_MAX_CAPACITY};
use crate::errors::DePINError;
use crate::rewards::{calculate_staking_rewards, spec_staking_rewards};
use crate::state::{AccountId, NetworkState, PoolType, StakingPool, UserProfile, UserStake};

verus! {

/// Preset annual reward rate, in basis points, of each pool category.
pub open spec fn spec_pool_reward_rate(pool_type: PoolType) -> u64 {
    match pool_type {
        PoolType::WiFiInfrastructure => 1200,
        PoolType::LogisticsOptimization => 1500,
        PoolType::AgricultureData => 1800,
        PoolType::Governance => 800,
        PoolType::LiquidityMining => 2500,
    }
}

/// Preset lock period, in seconds, of each pool category; zero means the
/// pool is unlocked.
pub open spec fn spec_pool_lock_period(pool_type: PoolType) -> i64 {
    match pool_type {
        PoolType::WiFiInfrastructure => 2592000,
        PoolType::LogisticsOptimization => 7776000,
        PoolType::AgricultureData => 15552000,
        PoolType::Governance => 0,
        PoolType::LiquidityMining => 1209600,
    }
}

/// The state of a freshly opened pool of the given category: empty,
/// active, and carrying the category presets.
pub open spec fn spec_default_pool(pool_type: PoolType) -> StakingPool {
    StakingPool {
        pool_type,
        total_staked: 0,
        reward_rate: spec_pool_reward_rate(pool_type),
        min_stake_amount: MIN_STAKE_AMOUNT,
        max_capacity: POOL_MAX_CAPACITY,
        lock_period: spec_pool_lock_period(pool_type),
        total_rewards_paid: 0,
        is_active: true,
    }
}

/// Open the pool of a category, or return the existing one untouched.
/// Idempotent: an active pool's accumulated state is never reset.
pub fn open_or_get_pool(existing: Option<StakingPool>, pool_type: PoolType) -> (p: StakingPool)
    ensures
        match existing {
            Some(e) => p == e,
            None => p == spec_default_pool(pool_type),
        },
{
    match existing {
        Some(e) => e,
        None => StakingPool {
            pool_type,
            total_staked: 0,
            reward_rate: match pool_type {
                PoolType::WiFiInfrastructure => 1200,
                PoolType::LogisticsOptimization => 1500,
                PoolType::AgricultureData => 1800,
                PoolType::Governance => 800,
                PoolType::LiquidityMining => 2500,
            },
            min_stake_amount: MIN_STAKE_AMOUNT,
            max_capacity: POOL_MAX_CAPACITY,
            lock_period: match pool_type {
                PoolType::WiFiInfrastructure => 30 * 24 * 3600,
                PoolType::LogisticsOptimization => 90 * 24 * 3600,
                PoolType::AgricultureData => 180 * 24 * 3600,
                PoolType::Governance => 0,
                PoolType::LiquidityMining => 14 * 24 * 3600,
            },
            total_rewards_paid: 0,
            is_active: true,
        },
    }
}

/// A fresh, empty position of `user` in `pool`. `start_time` is fixed here,
/// at first contact, and later top-ups never move it: the lock period of
/// the whole position runs from the first stake.
pub fn open_position(user: AccountId, pool: AccountId, now: i64) -> (s: UserStake)
    ensures
        s == (UserStake {
            user,
            pool,
            amount: 0,
            start_time: now,
            last_reward_claim: now,
            pending_rewards: 0,
        }),
{
    UserStake { user, pool, amount: 0, start_time: now, last_reward_claim: now, pending_rewards: 0 }
}

/// The outcome of staking `amount` into `pool` on `position`: either the
/// four updated records, or the specific rejection, checked in order.
pub open spec fn spec_stake_tokens(
    pool: StakingPool,
    position: UserStake,
    registry: NetworkState,
    profile: UserProfile,
    amount: u64,
) -> Result<(StakingPool, UserStake, NetworkState, UserProfile), DePINError> {
    if amount == 0 {
        Err(DePINError::InvalidStakeAmount)
    } else if !pool.is_active {
        Err(DePINError::PoolInactive)
    } else if amount < pool.min_stake_amount {
        Err(DePINError::BelowMinimumStake)
    } else if pool.total_staked + amount > pool.max_capacity {
        Err(DePINError::PoolCapacityExceeded)
    } else if position.amount + amount > u64::MAX || registry.total_staked + amount > u64::MAX
        || profile.total_staked + amount > u64::MAX {
        Err(DePINError::ArithmeticOverflow)
    } else {
        Ok(
            (
                StakingPool { total_staked: (pool.total_staked + amount) as u64, ..pool },
                UserStake { amount: (position.amount + amount) as u64, ..position },
                NetworkState { total_staked: (registry.total_staked + amount) as u64, ..registry },
                UserProfile { total_staked: (profile.total_staked + amount) as u64, ..profile },
            ),
        )
    }
}

/// Stake `amount` into the pool. Requires a positive amount at or above
/// the pool minimum that fits under the pool capacity; on success the
/// position, pool, registry and profile totals all grow by `amount`
/// together, and on any rejection nothing changes.
pub fn stake_tokens(
    pool: &mut StakingPool,
    position: &mut UserStake,
    registry: &mut NetworkState,
    profile: &mut UserProfile,
    amount: u64,
) -> (r: Result<(), DePINError>)
    ensures
        match spec_stake_tokens(*old(pool), *old(position), *old(registry), *old(profile), amount) {
            Ok(post) => {
                &&& r is Ok
                &&& *final(pool) == post.0
                &&& *final(position) == post.1
                &&& *final(registry) == post.2
                &&& *final(profile) == post.3
            },
            Err(e) => {
                &&& r == Err::<(), DePINError>(e)
                &&& *final(pool) == *old(pool)
                &&& *final(position) == *old(position)
                &&& *final(registry) == *old(registry)
                &&& *final(profile) == *old(profile)
            },
        },
{
    if amount == 0 {
        return Err(DePINError::InvalidStakeAmount);
    }
    if !pool.is_active {
        return Err(DePINError::PoolInactive);
    }
    if amount < pool.min_stake_amount {
        return Err(DePINError::BelowMinimumStake);
    }
    if amount > pool.max_capacity || pool.total_staked > pool.max_capacity - amount {
        return Err(DePINError::PoolCapacityExceeded);
    }
    let new_position_amount = match position.amount.checked_add(amount) {
        Some(v) => v,
        None => {
            return Err(DePINError::ArithmeticOverflow);
        },
    };
    let new_registry_total = match registry.total_staked.checked_add(amount) {
        Some(v) => v,
        None => {
            return Err(DePINError::ArithmeticOverflow);
        },
    };
    let new_profile_total = match profile.total_staked.checked_add(amount) {
        Some(v) => v,
        None => {
            return Err(DePINError::ArithmeticOverflow);
        },
    };
    pool.total_staked = pool.total_staked + amount;
    position.amount = new_position_amount;
    registry.total_staked = new_registry_total;
    profile.total_staked = new_profile_total;
    Ok(())
}

/// A stake below the pool minimum, or one that would push the pool past
/// its capacity, is always rejected with the specific error — and, by the
/// rejection clause of [`stake_tokens`], leaves every balance unchanged.
pub proof fn lemma_stake_guards(
    pool: StakingPool,
    position: UserStake,
    registry: NetworkState,
    profile: UserProfile,
    amount: u64,
)
    requires
        amount > 0,
        pool.is_active,
    ensures
        amount < pool.min_stake_amount ==> spec_stake_tokens(
            pool,
            position,
            registry,
            profile,
            amount,
        ) == Err::<(StakingPool, UserStake, NetworkState, UserProfile), DePINError>(
            DePINError::BelowMinimumStake,
        ),
        amount >= pool.min_stake_amount && pool.total_staked + amount > pool.max_capacity
            ==> spec_stake_tokens(pool, position, registry, profile, amount) == Err::<
            (StakingPool, UserStake, NetworkState, UserProfile),
            DePINError,
        >(DePINError::PoolCapacityExceeded),
{
}

/// Unstaking more than the position holds, or before the pool's lock
/// period has run from the position's first stake, is always rejected
/// with the specific error — and, by the rejection clause of
/// [`unstake_tokens`], leaves every balance unchanged.
pub proof fn lemma_unstake_guards(
    pool: StakingPool,
    position: UserStake,
    registry: NetworkState,
    profile: UserProfile,
    amount: u64,
    now: i64,
)
    requires
        amount > 0,
    ensures
        amount > position.amount ==> spec_unstake_tokens(
            pool,
            position,
            registry,
            profile,
            amount,
            now,
        ) == Err::<(StakingPool, UserStake, NetworkState, UserProfile), DePINError>(
            DePINError::InsufficientStake,
        ),
        amount <= position.amount && pool.lock_period > 0 && now < position.start_time
            + pool.lock_period ==> spec_unstake_tokens(pool, position, registry, profile, amount, now)
            == Err::<(StakingPool, UserStake, NetworkState, UserProfile), DePINError>(
            DePINError::StakeLocked,
        ),
{
}

/// Reward newly accrued by a position since its last claim, at the pool's
/// rate, as of `now`; an elapsed interval that leaves the machine range,
/// or runs backwards, is an arithmetic error.
pub open spec fn spec_accrued_rewards(pool: StakingPool, position: UserStake, now: i64) -> Result<
    u64,
    DePINError,
> {
    if now - position.last_reward_claim > i64::MAX || now - position.last_reward_claim < i64::MIN {
        Err(DePINError::ArithmeticOverflow)
    } else {
        spec_staking_rewards(
            position.amount,
            pool.reward_rate,
            (now - position.last_reward_claim) as i64,
        )
    }
}

/// The outcome of unstaking `amount` at time `now`: either the four
/// updated records, or the specific rejection, checked in order. Before
/// funds move, the interval since the last claim is accrued into
/// `pending_rewards` (not paid out here).
pub open spec fn spec_unstake_tokens(
    pool: StakingPool,
    position: UserStake,
    registry: NetworkState,
    profile: UserProfile,
    amount: u64,
    now: i64,
) -> Result<(StakingPool, UserStake, NetworkState, UserProfile), DePINError> {
    if amount == 0 {
        Err(DePINError::InvalidStakeAmount)
    } else if position.amount < amount {
        Err(DePINError::InsufficientStake)
    } else if pool.lock_period > 0 && now < position.start_time + pool.lock_period {
        Err(DePINError::StakeLocked)
    } else {
        match spec_accrued_rewards(pool, position, now) {
            Err(e) => Err(e),
            Ok(rewards) => if position.pending_rewards + rewards > u64::MAX {
                Err(DePINError::ArithmeticOverflow)
            } else {
                Ok(
                    (
                        StakingPool { total_staked: (pool.total_staked - amount) as u64, ..pool },
                        UserStake {
                            amount: (position.amount - amount) as u64,
                            last_reward_claim: now,
                            pending_rewards: (position.pending_rewards + rewards) as u64,
                            ..position
                        },
                        NetworkState {
                            total_staked: (registry.total_staked - amount) as u64,
                            ..registry
                        },
                        UserProfile {
                            total_staked: (profile.total_staked - amount) as u64,
                            ..profile
                        },
                    ),
                )
            },
        }
    }
}

/// Unstake `amount` from the position at time `now`. Rejected while the
/// pool's lock period, measured from the position's first stake, has not
/// elapsed. On success the accrued reward is added to `pending_rewards`,
/// the claim clock advances, and all four staked totals shrink by
/// `amount` together; on any rejection nothing changes.
///
/// The caller hands in records of one ledger state, where a position
/// never exceeds the totals that include it.
pub fn unstake_tokens(
    pool: &mut StakingPool,
    position: &mut UserStake,
    registry: &mut NetworkState,
    profile: &mut UserProfile,
    amount: u64,
    now: i64,
) -> (r: Result<(), DePINError>)
    requires
        old(position).amount <= old(pool).total_staked,
        old(position).amount <= old(registry).total_staked,
        old(position).amount <= old(profile).total_staked,
    ensures
        match spec_unstake_tokens(
            *old(pool),
            *old(position),
            *old(registry),
            *old(profile),
            amount,
            now,
        ) {
            Ok(post) => {
                &&& r is Ok
                &&& *final(pool) == post.0
                &&& *final(position) == post.1
                &&& *final(registry) == post.2
                &&& *final(profile) == post.3
            },
            Err(e) => {
                &&& r == Err::<(), DePINError>(e)
                &&& *final(pool) == *old(pool)
                &&& *final(position) == *old(position)
                &&& *final(registry) == *old(registry)
                &&& *final(profile) == *old(profile)
            },
        },
{
    if amount == 0 {
        return Err(DePINError::InvalidStakeAmount);
    }
    if position.amount < amount {
        return Err(DePINError::InsufficientStake);
    }
    if pool.lock_period > 0 {
        match position.start_time.checked_add(pool.lock_period) {
            Some(unlock_time) => {
                if now < unlock_time {
                    return Err(DePINError::StakeLocked);
                }
            },
            None => {
                return Err(DePINError::StakeLocked);
            },
        }
    }
    let elapsed = match now.checked_sub(position.last_reward_claim) {
        Some(e) => e,
        None => {
            return Err(DePINError::ArithmeticOverflow);
        },
    };
    let rewards = match calculate_staking_rewards(position.amount, pool.reward_rate, elapsed) {
        Ok(v) => v,
        Err(e) => {
            return Err(e);
        },
    };
    let new_pending = match position.pending_rewards.checked_add(rewards) {
        Some(v) => v,
        None => {
            return Err(DePINError::ArithmeticOverflow);
        },
    };
    position.amount = position.amount - amount;
    position.last_reward_claim = now;
    position.pending_rewards = new_pending;
    pool.total_staked = pool.total_staked - amount;
    registry.total_staked = registry.total_staked - amount;
    profile.total_staked = profile.total_staked - amount;
    Ok(())
}

/// The outcome of claiming at time `now`: the updated pool, position and
/// profile together with the amount paid out, or the specific rejection.
/// The payout is the pending balance plus the newly accrued interval and
/// must be strictly positive.
pub open spec fn spec_claim_rewards(
    pool: StakingPool,
    position: UserStake,
    profile: UserProfile,
    now: i64,
) -> Result<(StakingPool, UserStake, UserProfile, u64), DePINError> {
    if position.amount == 0 {
        Err(DePINError::NoStakeFound)
    } else {
        match spec_accrued_rewards(pool, position, now) {
            Err(e) => Err(e),
            Ok(rewards) => if position.pending_rewards + rewards > u64::MAX {
                Err(DePINError::ArithmeticOverflow)
            } else if position.pending_rewards + rewards == 0 {
                Err(DePINError::NoRewardsToClaim)
            } else if pool.total_rewards_paid + position.pending_rewards + rewards > u64::MAX
                || profile.total_earned + position.pending_rewards + rewards > u64::MAX {
                Err(DePINError::ArithmeticOverflow)
            } else {
                Ok(
                    (
                        StakingPool {
                            total_rewards_paid: (pool.total_rewards_paid + position.pending_rewards
                                + rewards) as u64,
                            ..pool
                        },
                        UserStake { last_reward_claim: now, pending_rewards: 0, ..position },
                        UserProfile {
                            total_earned: (profile.total_earned + position.pending_rewards
                                + rewards) as u64,
                            ..profile
                        },
                        (position.pending_rewards + rewards) as u64,
                    ),
                )
            },
        }
    }
}

/// Claim the rewards of a position at time `now`: accrue the interval
/// since the last claim, add the pending balance, and pay the strictly
/// positive total to the user (the payout itself is the host's duty).
/// On success returns the amount paid, resets `pending_rewards`, advances
/// the claim clock, and grows the pool's and profile's paid totals by the
/// same amount; on any rejection nothing changes.
pub fn claim_rewards(
    pool: &mut StakingPool,
    position: &mut UserStake,
    profile: &mut UserProfile,
    now: i64,
) -> (r: Result<u64, DePINError>)
    ensures
        match spec_claim_rewards(*old(pool), *old(position), *old(profile), now) {
            Ok(post) => {
                &&& r == Ok::<u64, DePINError>(post.3)
                &&& *final(pool) == post.0
                &&& *final(position) == post.1
                &&& *final(profile) == post.2
            },
            Err(e) => {
                &&& r == Err::<u64, DePINError>(e)
                &&& *final(pool) == *old(pool)
                &&& *final(position) == *old(position)
                &&& *final(profile) == *old(profile)
            },
        },
{
    if position.amount == 0 {
        return Err(DePINError::NoStakeFound);
    }
    let elapsed = match now.checked_sub(position.last_reward_claim) {
        Some(e) => e,
        None => {
            return Err(DePINError::ArithmeticOverflow);
        },
    };
    let rewards = match calculate_staking_rewards(position.amount, pool.reward_rate, elapsed) {
        Ok(v) => v,
        Err(e) => {
            return Err(e);
        },
    };
    let total_rewards = match position.pending_rewards.checked_add(rewards) {
        Some(v) => v,
        None => {
            return Err(DePINError::ArithmeticOverflow);
        },
    };
    if total_rewards == 0 {
        return Err(DePINError::NoRewardsToClaim);
    }
    let new_paid = match pool.total_rewards_paid.checked_add(total_rewards) {
        Some(v) => v,
        None => {
            return Err(DePINError::ArithmeticOverflow);
        },
    };
    let new_earned = match profile.total_earned.checked_add(total_rewards) {
        Some(v) => v,
        None => {
            return Err(DePINError::ArithmeticOverflow);
        },
    };
    position.pending_rewards = 0;
    position.last_reward_claim = now;
    pool.total_rewards_paid = new_paid;
    profile.total_earned = new_earned;
    Ok(total_rewards)
}

} // verus!
