//! The network registry: genesis initialization, the daily reward
//! distribution gate, and authority-gated parameter updates.

use vstd::prelude::*;
use crate::constants::{
    DEFAULT_AGRICULTURE_REWARD_RATE, DEFAULT_HEALTHCARE_REWARD_RATE, DEFAULT_LOGISTICS_REWARD_RATE,
    DEFAULT_TAXATION_REWARD_RATE, DEFAULT_WIFI_REWARD_RATE, DISTRIBUTION_INTERVAL,
    GOVERNANCE_THRESHOLD,
};
use crate::errors::DePINError;
use crate::state::{AccountId, NetworkState};

verus! {

/// The genesis registry: zero counters and staked total, the default
/// per-category reward rates, the default governance threshold, and a
/// distribution clock starting at `now`.
pub open spec fn spec_genesis_registry(
    authority: AccountId,
    mint: AccountId,
    total_supply: u64,
    now: i64,
) -> NetworkState {
    NetworkState {
        authority,
        mint,
        total_supply,
        total_staked: 0,
        wifi_hotspots_count: 0,
        logistics_partners_count: 0,
        farms_count: 0,
        healthcare_providers_count: 0,
        tax_points_count: 0,
        wifi_reward_rate: DEFAULT_WIFI_REWARD_RATE,
        logistics_reward_rate: DEFAULT_LOGISTICS_REWARD_RATE,
        agriculture_reward_rate: DEFAULT_AGRICULTURE_REWARD_RATE,
        healthcare_reward_rate: DEFAULT_HEALTHCARE_REWARD_RATE,
        taxation_reward_rate: DEFAULT_TAXATION_REWARD_RATE,
        last_reward_distribution: now,
        governance_threshold: GOVERNANCE_THRESHOLD,
        proposals_count: 0,
    }
}

/// Create the singleton registry at genesis. The token unit itself (the
/// mint and its decimals) lives in the external token ledger; the
/// registry only records its identity and supply.
pub fn initialize(authority: AccountId, mint: AccountId, total_supply: u64, decimals: u8, now: i64) -> (r:
    NetworkState)
    ensures
        r == spec_genesis_registry(authority, mint, total_supply, now),
{
    let _ = decimals;
    NetworkState {
        authority,
        mint,
        total_supply,
        total_staked: 0,
        wifi_hotspots_count: 0,
        logistics_partners_count: 0,
        farms_count: 0,
        healthcare_providers_count: 0,
        tax_points_count: 0,
        wifi_reward_rate: DEFAULT_WIFI_REWARD_RATE,
        logistics_reward_rate: DEFAULT_LOGISTICS_REWARD_RATE,
        agriculture_reward_rate: DEFAULT_AGRICULTURE_REWARD_RATE,
        healthcare_reward_rate: DEFAULT_HEALTHCARE_REWARD_RATE,
        taxation_reward_rate: DEFAULT_TAXATION_REWARD_RATE,
        last_reward_distribution: now,
        governance_threshold: GOVERNANCE_THRESHOLD,
        proposals_count: 0,
    }
}

/// The outcome of a distribution tick at time `now`: the registry with
/// its clock advanced, or the specific rejection. Only the authority may
/// distribute, and at most once per distribution interval.
pub open spec fn spec_distribute_rewards(registry: NetworkState, caller: AccountId, now: i64) -> Result<
    NetworkState,
    DePINError,
> {
    if caller != registry.authority {
        Err(DePINError::Unauthorized)
    } else if now - registry.last_reward_distribution > i64::MAX || now
        - registry.last_reward_distribution < i64::MIN {
        Err(DePINError::ArithmeticOverflow)
    } else if now - registry.last_reward_distribution < DISTRIBUTION_INTERVAL {
        Err(DePINError::DistributionTooFrequent)
    } else {
        Ok(NetworkState { last_reward_distribution: now, ..registry })
    }
}

/// Advance the distribution clock if a full interval has passed since the
/// last distribution. The per-operator payouts themselves follow from the
/// submission records and are issued by the host; on any rejection
/// nothing changes.
pub fn distribute_rewards(registry: &mut NetworkState, caller: AccountId, now: i64) -> (r: Result<
    (),
    DePINError,
>)
    ensures
        match spec_distribute_rewards(*old(registry), caller, now) {
            Ok(post) => r is Ok && *final(registry) == post,
            Err(e) => {
                &&& r == Err::<(), DePINError>(e)
                &&& *final(registry) == *old(registry)
            },
        },
{
    if caller != registry.authority {
        return Err(DePINError::Unauthorized);
    }
    let since_last = match now.checked_sub(registry.last_reward_distribution) {
        Some(v) => v,
        None => {
            return Err(DePINError::ArithmeticOverflow);
        },
    };
    if since_last < DISTRIBUTION_INTERVAL {
        return Err(DePINError::DistributionTooFrequent);
    }
    registry.last_reward_distribution = now;
    Ok(())
}

/// The outcome of an authority parameter update: the registry with the
/// three submission reward rates replaced, or the specific rejection.
/// Every rate must be strictly positive.
pub open spec fn spec_update_network_params(
    registry: NetworkState,
    caller: AccountId,
    wifi_reward_rate: u64,
    logistics_reward_rate: u64,
    agriculture_reward_rate: u64,
) -> Result<NetworkState, DePINError> {
    if caller != registry.authority {
        Err(DePINError::Unauthorized)
    } else if wifi_reward_rate == 0 || logistics_reward_rate == 0 || agriculture_reward_rate == 0 {
        Err(DePINError::InvalidRewardRate)
    } else {
        Ok(
            NetworkState {
                wifi_reward_rate,
                logistics_reward_rate,
                agriculture_reward_rate,
                ..registry
            },
        )
    }
}

/// Replace the three submission reward rates. Only the authority may do
/// so, and only with strictly positive rates; on any rejection nothing
/// changes.
pub fn update_network_params(
    registry: &mut NetworkState,
    caller: AccountId,
    wifi_reward_rate: u64,
    logistics_reward_rate: u64,
    agriculture_reward_rate: u64,
) -> (r: Result<(), DePINError>)
    ensures
        match spec_update_network_params(
            *old(registry),
            caller,
            wifi_reward_rate,
            logistics_reward_rate,
            agriculture_reward_rate,
        ) {
            Ok(post) => r is Ok && *final(registry) == post,
            Err(e) => {
                &&& r == Err::<(), DePINError>(e)
                &&& *final(registry) == *old(registry)
            },
        },
{
    if caller != registry.authority {
        return Err(DePINError::Unauthorized);
    }
    if wifi_reward_rate == 0 || logistics_reward_rate == 0 || agriculture_reward_rate == 0 {
        return Err(DePINError::InvalidRewardRate);
    }
    registry.wifi_reward_rate = wifi_reward_rate;
    registry.logistics_reward_rate = logistics_reward_rate;
    registry.agriculture_reward_rate = agriculture_reward_rate;
    Ok(())
}

} // verus!
