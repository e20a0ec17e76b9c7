//! The user profile aggregator and the shared crediting interface that
//! every reward-earning module consumes: reward crediting into
//! `total_earned`, and per-category asset counting on registration, on
//! both the profile and the network registry.

use vstd::prelude::*;
use crate::errors::DePINError;
use crate::state::{AccountId, NetworkState, UserProfile};

verus! {

/// The five registrable asset categories.
#[derive(Clone, Copy, PartialEq, Eq, Structural, Debug)]
pub enum AssetCategory {
    WiFiHotspot,
    LogisticsPartner,
    Farm,
    HealthcareProvider,
    TaxCollectionPoint,
}

/// The profile a participant starts with on first contact of any kind:
/// default reputation, zero totals and counters.
pub open spec fn spec_new_profile(owner: AccountId, now: i64) -> UserProfile {
    UserProfile {
        owner,
        total_earned: 0,
        total_staked: 0,
        reputation_score: 100,
        last_activity: now,
        wifi_hotspots: 0,
        logistics_partners: 0,
        farms: 0,
        governance_votes: 0,
    }
}

impl UserProfile {
    /// Create a participant's profile on first contact.
    pub fn new(owner: AccountId, now: i64) -> (p: UserProfile)
        ensures
            p == spec_new_profile(owner, now),
    {
        UserProfile {
            owner,
            total_earned: 0,
            total_staked: 0,
            reputation_score: 100,
            last_activity: now,
            wifi_hotspots: 0,
            logistics_partners: 0,
            farms: 0,
            governance_votes: 0,
        }
    }
}

/// The outcome of crediting `amount` of earned reward at time `now`: the
/// profile with `total_earned` grown and its activity clock advanced, or
/// an arithmetic rejection.
pub open spec fn spec_credit_reward(profile: UserProfile, amount: u64, now: i64) -> Result<
    UserProfile,
    DePINError,
> {
    if profile.total_earned + amount > u64::MAX {
        Err(DePINError::ArithmeticOverflow)
    } else {
        Ok(
            UserProfile {
                total_earned: (profile.total_earned + amount) as u64,
                last_activity: now,
                ..profile
            },
        )
    }
}

/// Credit `amount` of earned reward to the profile. On rejection nothing
/// changes.
pub fn credit_reward(profile: &mut UserProfile, amount: u64, now: i64) -> (r: Result<
    (),
    DePINError,
>)
    ensures
        match spec_credit_reward(*old(profile), amount, now) {
            Ok(post) => r is Ok && *final(profile) == post,
            Err(e) => {
                &&& r == Err::<(), DePINError>(e)
                &&& *final(profile) == *old(profile)
            },
        },
{
    let new_earned = match profile.total_earned.checked_add(amount) {
        Some(v) => v,
        None => {
            return Err(DePINError::ArithmeticOverflow);
        },
    };
    profile.total_earned = new_earned;
    profile.last_activity = now;
    Ok(())
}

/// The outcome of counting one newly registered asset on the profile: the
/// category's counter grown by one (healthcare providers and tax points
/// keep no per-profile counter) and the activity clock advanced, or an
/// arithmetic rejection.
pub open spec fn spec_register_asset(profile: UserProfile, category: AssetCategory, now: i64) -> Result<
    UserProfile,
    DePINError,
> {
    let counter = match category {
        AssetCategory::WiFiHotspot => profile.wifi_hotspots as int,
        AssetCategory::LogisticsPartner => profile.logistics_partners as int,
        AssetCategory::Farm => profile.farms as int,
        AssetCategory::HealthcareProvider => 0,
        AssetCategory::TaxCollectionPoint => 0,
    };
    if counter + 1 > u8::MAX {
        Err(DePINError::ArithmeticOverflow)
    } else {
        Ok(
            UserProfile {
                wifi_hotspots: if category == AssetCategory::WiFiHotspot {
                    (profile.wifi_hotspots + 1) as u8
                } else {
                    profile.wifi_hotspots
                },
                logistics_partners: if category == AssetCategory::LogisticsPartner {
                    (profile.logistics_partners + 1) as u8
                } else {
                    profile.logistics_partners
                },
                farms: if category == AssetCategory::Farm {
                    (profile.farms + 1) as u8
                } else {
                    profile.farms
                },
                last_activity: now,
                ..profile
            },
        )
    }
}

/// Count one newly registered asset of `category` on the profile. On
/// rejection nothing changes.
pub fn register_asset(profile: &mut UserProfile, category: AssetCategory, now: i64) -> (r: Result<
    (),
    DePINError,
>)
    ensures
        match spec_register_asset(*old(profile), category, now) {
            Ok(post) => r is Ok && *final(profile) == post,
            Err(e) => {
                &&& r == Err::<(), DePINError>(e)
                &&& *final(profile) == *old(profile)
            },
        },
{
    match category {
        AssetCategory::WiFiHotspot => {
            let new_count = match profile.wifi_hotspots.checked_add(1) {
                Some(v) => v,
                None => {
                    return Err(DePINError::ArithmeticOverflow);
                },
            };
            profile.wifi_hotspots = new_count;
        },
        AssetCategory::LogisticsPartner => {
            let new_count = match profile.logistics_partners.checked_add(1) {
                Some(v) => v,
                None => {
                    return Err(DePINError::ArithmeticOverflow);
                },
            };
            profile.logistics_partners = new_count;
        },
        AssetCategory::Farm => {
            let new_count = match profile.farms.checked_add(1) {
                Some(v) => v,
                None => {
                    return Err(DePINError::ArithmeticOverflow);
                },
            };
            profile.farms = new_count;
        },
        AssetCategory::HealthcareProvider => {},
        AssetCategory::TaxCollectionPoint => {},
    }
    profile.last_activity = now;
    Ok(())
}

/// The outcome of counting one newly registered asset on the registry:
/// the category's network-wide counter grown by one, or an arithmetic
/// rejection.
pub open spec fn spec_count_asset(registry: NetworkState, category: AssetCategory) -> Result<
    NetworkState,
    DePINError,
> {
    let counter = match category {
        AssetCategory::WiFiHotspot => registry.wifi_hotspots_count,
        AssetCategory::LogisticsPartner => registry.logistics_partners_count,
        AssetCategory::Farm => registry.farms_count,
        AssetCategory::HealthcareProvider => registry.healthcare_providers_count,
        AssetCategory::TaxCollectionPoint => registry.tax_points_count,
    };
    if counter + 1 > u32::MAX {
        Err(DePINError::ArithmeticOverflow)
    } else {
        Ok(
            NetworkState {
                wifi_hotspots_count: if category == AssetCategory::WiFiHotspot {
                    (registry.wifi_hotspots_count + 1) as u32
                } else {
                    registry.wifi_hotspots_count
                },
                logistics_partners_count: if category == AssetCategory::LogisticsPartner {
                    (registry.logistics_partners_count + 1) as u32
                } else {
                    registry.logistics_partners_count
                },
                farms_count: if category == AssetCategory::Farm {
                    (registry.farms_count + 1) as u32
                } else {
                    registry.farms_count
                },
                healthcare_providers_count: if category == AssetCategory::HealthcareProvider {
                    (registry.healthcare_providers_count + 1) as u32
                } else {
                    registry.healthcare_providers_count
                },
                tax_points_count: if category == AssetCategory::TaxCollectionPoint {
                    (registry.tax_points_count + 1) as u32
                } else {
                    registry.tax_points_count
                },
                ..registry
            },
        )
    }
}

/// Count one newly registered asset of `category` on the registry. On
/// rejection nothing changes.
pub fn count_asset(registry: &mut NetworkState, category: AssetCategory) -> (r: Result<
    (),
    DePINError,
>)
    ensures
        match spec_count_asset(*old(registry), category) {
            Ok(post) => r is Ok && *final(registry) == post,
            Err(e) => {
                &&& r == Err::<(), DePINError>(e)
                &&& *final(registry) == *old(registry)
            },
        },
{
    match category {
        AssetCategory::WiFiHotspot => {
            let new_count = match registry.wifi_hotspots_count.checked_add(1) {
                Some(v) => v,
                None => {
                    return Err(DePINError::ArithmeticOverflow);
                },
            };
            registry.wifi_hotspots_count = new_count;
        },
        AssetCategory::LogisticsPartner => {
            let new_count = match registry.logistics_partners_count.checked_add(1) {
                Some(v) => v,
                None => {
                    return Err(DePINError::ArithmeticOverflow);
                },
            };
            registry.logistics_partners_count = new_count;
        },
        AssetCategory::Farm => {
            let new_count = match registry.farms_count.checked_add(1) {
                Some(v) => v,
                None => {
                    return Err(DePINError::ArithmeticOverflow);
                },
            };
            registry.farms_count = new_count;
        },
        AssetCategory::HealthcareProvider => {
            let new_count = match registry.healthcare_providers_count.checked_add(1) {
                Some(v) => v,
                None => {
                    return Err(DePINError::ArithmeticOverflow);
                },
            };
            registry.healthcare_providers_count = new_count;
        },
        AssetCategory::TaxCollectionPoint => {
            let new_count = match registry.tax_points_count.checked_add(1) {
                Some(v) => v,
                None => {
                    return Err(DePINError::ArithmeticOverflow);
                },
            };
            registry.tax_points_count = new_count;
        },
    }
    Ok(())
}

} // verus!
