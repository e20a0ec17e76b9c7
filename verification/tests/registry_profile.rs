use depin_network::constants::{
    DEFAULT_AGRICULTURE_REWARD_RATE, DEFAULT_HEALTHCARE_REWARD_RATE,
    DEFAULT_LOGISTICS_REWARD_RATE, DEFAULT_TAXATION_REWARD_RATE, DEFAULT_WIFI_REWARD_RATE,
    GOVERNANCE_THRESHOLD,
};
use depin_network::errors::DePINError;
use depin_network::profile::{
    count_asset, credit_reward, register_asset, AssetCategory,
};
use depin_network::registry::{distribute_rewards, initialize, update_network_params};
use depin_network::state::{AccountId, UserProfile};

fn user(id: u64) -> AccountId {
    AccountId { id }
}

#[test]
fn genesis_registry_defaults() {
    let registry = initialize(user(1), user(2), 1_000, 9, 500);
    assert_eq!(registry.authority, user(1));
    assert_eq!(registry.mint, user(2));
    assert_eq!(registry.total_supply, 1_000);
    assert_eq!(registry.total_staked, 0);
    assert_eq!(registry.wifi_reward_rate, DEFAULT_WIFI_REWARD_RATE);
    assert_eq!(registry.logistics_reward_rate, DEFAULT_LOGISTICS_REWARD_RATE);
    assert_eq!(registry.agriculture_reward_rate, DEFAULT_AGRICULTURE_REWARD_RATE);
    assert_eq!(registry.healthcare_reward_rate, DEFAULT_HEALTHCARE_REWARD_RATE);
    assert_eq!(registry.taxation_reward_rate, DEFAULT_TAXATION_REWARD_RATE);
    assert_eq!(registry.governance_threshold, GOVERNANCE_THRESHOLD);
    assert_eq!(registry.last_reward_distribution, 500);
    assert_eq!(registry.proposals_count, 0);
    assert_eq!(registry.wifi_hotspots_count, 0);
}

#[test]
fn distribution_gated_by_authority_and_interval() {
    let mut registry = initialize(user(1), user(2), 0, 9, 0);
    let wrong = distribute_rewards(&mut registry, user(3), 90_000);
    assert_eq!(wrong, Err(DePINError::Unauthorized));
    let too_soon = distribute_rewards(&mut registry, user(1), 86_399);
    assert_eq!(too_soon, Err(DePINError::DistributionTooFrequent));
    assert_eq!(registry.last_reward_distribution, 0);
    let ok = distribute_rewards(&mut registry, user(1), 86_400);
    assert_eq!(ok, Ok(()));
    assert_eq!(registry.last_reward_distribution, 86_400);
    let again = distribute_rewards(&mut registry, user(1), 90_000);
    assert_eq!(again, Err(DePINError::DistributionTooFrequent));
}

#[test]
fn parameter_update_gated_and_positive() {
    let mut registry = initialize(user(1), user(2), 0, 9, 0);
    let wrong = update_network_params(&mut registry, user(3), 1, 2, 3);
    assert_eq!(wrong, Err(DePINError::Unauthorized));
    let zero = update_network_params(&mut registry, user(1), 0, 2, 3);
    assert_eq!(zero, Err(DePINError::InvalidRewardRate));
    assert_eq!(registry.wifi_reward_rate, DEFAULT_WIFI_REWARD_RATE);
    let ok = update_network_params(&mut registry, user(1), 7, 8, 9);
    assert_eq!(ok, Ok(()));
    assert_eq!(registry.wifi_reward_rate, 7);
    assert_eq!(registry.logistics_reward_rate, 8);
    assert_eq!(registry.agriculture_reward_rate, 9);
    assert_eq!(registry.healthcare_reward_rate, DEFAULT_HEALTHCARE_REWARD_RATE);
}

#[test]
fn new_profile_defaults() {
    let profile = UserProfile::new(user(7), 123);
    assert_eq!(profile.owner, user(7));
    assert_eq!(profile.total_earned, 0);
    assert_eq!(profile.total_staked, 0);
    assert_eq!(profile.reputation_score, 100);
    assert_eq!(profile.last_activity, 123);
    assert_eq!(profile.wifi_hotspots, 0);
    assert_eq!(profile.governance_votes, 0);
}

#[test]
fn credit_reward_accumulates() {
    let mut profile = UserProfile::new(user(7), 0);
    assert_eq!(credit_reward(&mut profile, 40, 10), Ok(()));
    assert_eq!(credit_reward(&mut profile, 2, 20), Ok(()));
    assert_eq!(profile.total_earned, 42);
    assert_eq!(profile.last_activity, 20);
}

#[test]
fn credit_reward_rejects_overflow() {
    let mut profile = UserProfile::new(user(7), 0);
    profile.total_earned = u64::MAX;
    assert_eq!(credit_reward(&mut profile, 1, 10), Err(DePINError::ArithmeticOverflow));
    assert_eq!(profile.total_earned, u64::MAX);
    assert_eq!(profile.last_activity, 0);
}

#[test]
fn register_asset_counts_per_category() {
    let mut profile = UserProfile::new(user(7), 0);
    register_asset(&mut profile, AssetCategory::WiFiHotspot, 1).unwrap();
    register_asset(&mut profile, AssetCategory::WiFiHotspot, 2).unwrap();
    register_asset(&mut profile, AssetCategory::LogisticsPartner, 3).unwrap();
    register_asset(&mut profile, AssetCategory::Farm, 4).unwrap();
    register_asset(&mut profile, AssetCategory::HealthcareProvider, 5).unwrap();
    register_asset(&mut profile, AssetCategory::TaxCollectionPoint, 6).unwrap();
    assert_eq!(profile.wifi_hotspots, 2);
    assert_eq!(profile.logistics_partners, 1);
    assert_eq!(profile.farms, 1);
    assert_eq!(profile.last_activity, 6);
}

#[test]
fn count_asset_counts_on_registry() {
    let mut registry = initialize(user(1), user(2), 0, 9, 0);
    count_asset(&mut registry, AssetCategory::WiFiHotspot).unwrap();
    count_asset(&mut registry, AssetCategory::WiFiHotspot).unwrap();
    count_asset(&mut registry, AssetCategory::Farm).unwrap();
    count_asset(&mut registry, AssetCategory::HealthcareProvider).unwrap();
    count_asset(&mut registry, AssetCategory::TaxCollectionPoint).unwrap();
    assert_eq!(registry.wifi_hotspots_count, 2);
    assert_eq!(registry.logistics_partners_count, 0);
    assert_eq!(registry.farms_count, 1);
    assert_eq!(registry.healthcare_providers_count, 1);
    assert_eq!(registry.tax_points_count, 1);
}
