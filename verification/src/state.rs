//! The record types of the ledger: the singleton network registry, staking
//! pools and per-(user, pool) positions, governance proposals, per-user
//! profiles, and the five registered asset kinds.
//!
//! Every record is a plain value of integers, booleans, tags and bounded
//! byte strings. Identities are opaque account keys; text fields carry raw
//! bytes and are length-bounded by the constants of [`crate::constants`].

use vstd::prelude::*;
use crate::constants::{
    MAX_TITLE_LEN, MAX_DESCRIPTION_LEN, MAX_LOCATION_LEN, MAX_PARTNER_NAME_LEN, MAX_SERVICE_AREAS,
    MAX_AREA_LEN, MAX_FARM_NAME_LEN, MAX_CROP_TYPES, MAX_CROP_LEN, MAX_PROVIDER_NAME_LEN,
    MAX_PROVIDER_TYPE_LEN, MAX_LICENSE_LEN, MAX_POINT_NAME_LEN, MAX_AUTHORITY_TYPE_LEN,
    MAX_JURISDICTION_LEN,
};

verus! {

/// Every byte string in `texts` is within `max` bytes.
pub open spec fn texts_within(texts: Seq<Vec<u8>>, max: int) -> bool {
    forall|k: int| 0 <= k < texts.len() ==> #[trigger] texts[k]@.len() <= max
}

/// An opaque account identity: a key in the durable account store. The
/// ledger only ever compares identities for equality.
#[derive(Clone, Copy, PartialEq, Eq, Structural, Debug, Hash)]
pub struct AccountId {
    pub id: u64,
}

/// The five staking classes; each has its own preset rate, minimum,
/// capacity and lock period.
#[derive(Clone, Copy, PartialEq, Eq, Structural, Debug)]
pub enum PoolType {
    WiFiInfrastructure,
    LogisticsOptimization,
    AgricultureData,
    Governance,
    LiquidityMining,
}

/// What an approved proposal dispatches.
#[derive(Clone, Copy, PartialEq, Eq, Structural, Debug)]
pub enum ProposalType {
    ParameterChange,
    TreasurySpend,
    ProtocolUpgrade,
    RewardRateChange,
    NetworkExpansion,
}

/// A ballot choice. Abstain counts as a ballot but moves neither tally.
#[derive(Clone, Copy, PartialEq, Eq, Structural, Debug)]
pub enum Vote {
    Yes,
    No,
    Abstain,
}

/// The singleton registry, created once at genesis: global counters and
/// reward-rate parameters read by every module. Counters are mutated by
/// registration, rates and the distribution timestamp by the authority.
#[derive(Clone, PartialEq, Eq, Debug)]
pub struct NetworkState {
    pub authority: AccountId,
    pub mint: AccountId,
    pub total_supply: u64,
    pub total_staked: u64,
    pub wifi_hotspots_count: u32,
    pub logistics_partners_count: u32,
    pub farms_count: u32,
    pub healthcare_providers_count: u32,
    pub tax_points_count: u32,
    pub wifi_reward_rate: u64,
    pub logistics_reward_rate: u64,
    pub agriculture_reward_rate: u64,
    pub healthcare_reward_rate: u64,
    pub taxation_reward_rate: u64,
    pub last_reward_distribution: i64,
    pub governance_threshold: u64,
    pub proposals_count: u64,
}

/// One staking pool per pool category. `total_staked` always equals the
/// sum of `amount` over the positions of this pool and never exceeds
/// `max_capacity`; `reward_rate` is an annual rate in basis points.
#[derive(Clone, PartialEq, Eq, Debug)]
pub struct StakingPool {
    pub pool_type: PoolType,
    pub total_staked: u64,
    pub reward_rate: u64,
    pub min_stake_amount: u64,
    pub max_capacity: u64,
    pub lock_period: i64,
    pub total_rewards_paid: u64,
    pub is_active: bool,
}

/// One staking position per (user, pool) pair. `start_time` is set at the
/// first stake and never moved by later top-ups, so the lock period of the
/// whole position runs from the first stake. `last_reward_claim` advances
/// on claim and on unstake; `pending_rewards` is accrued but unpaid.
#[derive(Clone, PartialEq, Eq, Debug)]
pub struct UserStake {
    pub user: AccountId,
    pub pool: AccountId,
    pub amount: u64,
    pub start_time: i64,
    pub last_reward_claim: i64,
    pub pending_rewards: u64,
}

/// A governance proposal. Immutable once created except the vote tallies
/// (while the window is open) and the one-shot `executed`/`approved` pair.
#[derive(Clone, PartialEq, Eq, Debug)]
pub struct Proposal {
    pub id: u64,
    pub proposer: AccountId,
    pub title: Vec<u8>,
    pub description: Vec<u8>,
    pub proposal_type: ProposalType,
    pub yes_votes: u64,
    pub no_votes: u64,
    pub total_votes: u32,
    pub start_time: i64,
    pub end_time: i64,
    pub executed: bool,
    pub approved: bool,
}

/// Per-user denormalized totals, updated as a side effect of every other
/// module's operations. `total_staked` mirrors the sum of the user's
/// position amounts across all pools.
#[derive(Clone, PartialEq, Eq, Debug)]
pub struct UserProfile {
    pub owner: AccountId,
    pub total_earned: u64,
    pub total_staked: u64,
    pub reputation_score: u16,
    pub last_activity: i64,
    pub wifi_hotspots: u8,
    pub logistics_partners: u8,
    pub farms: u8,
    pub governance_votes: u32,
}

/// A registered WiFi hotspot asset.
#[derive(Clone, PartialEq, Eq, Debug)]
pub struct WiFiHotspot {
    pub owner: AccountId,
    pub location: Vec<u8>,
    pub coverage_radius: u32,
    pub bandwidth_mbps: u32,
    pub total_users_served: u32,
    pub total_data_transferred: u64,
    pub total_rewards_earned: u64,
    pub last_data_submission: i64,
    pub is_active: bool,
    pub reputation_score: u8,
}

/// A registered logistics partner asset.
#[derive(Clone, PartialEq, Eq, Debug)]
pub struct LogisticsPartner {
    pub owner: AccountId,
    pub partner_name: Vec<u8>,
    pub service_areas: Vec<Vec<u8>>,
    pub vehicle_count: u32,
    pub total_deliveries: u32,
    pub total_distance_km: u32,
    pub total_rewards_earned: u64,
    pub last_data_submission: i64,
    pub is_active: bool,
    pub efficiency_score: u8,
}

/// A registered farm asset.
#[derive(Clone, PartialEq, Eq, Debug)]
pub struct Farm {
    pub owner: AccountId,
    pub farm_name: Vec<u8>,
    pub location: Vec<u8>,
    pub farm_size_acres: u32,
    pub crop_types: Vec<Vec<u8>>,
    pub total_data_submissions: u32,
    pub total_rewards_earned: u64,
    pub last_data_submission: i64,
    pub is_active: bool,
    pub yield_improvement: u8,
}

/// A registered healthcare provider asset.
#[derive(Clone, PartialEq, Eq, Debug)]
pub struct HealthcareProvider {
    pub owner: AccountId,
    pub provider_name: Vec<u8>,
    pub provider_type: Vec<u8>,
    pub location: Vec<u8>,
    pub license_number: Vec<u8>,
    pub total_data_submissions: u32,
    pub total_records_collected: u32,
    pub total_rewards_earned: u64,
    pub last_data_submission: i64,
    pub is_active: bool,
    pub compliance_score: u8,
}

/// A registered tax collection point asset.
#[derive(Clone, PartialEq, Eq, Debug)]
pub struct TaxCollectionPoint {
    pub owner: AccountId,
    pub point_name: Vec<u8>,
    pub authority_type: Vec<u8>,
    pub location: Vec<u8>,
    pub jurisdiction: Vec<u8>,
    pub total_records_submitted: u32,
    pub total_amount_processed: u64,
    pub total_rewards_earned: u64,
    pub last_data_submission: i64,
    pub is_active: bool,
    pub verification_score: u8,
}

impl Proposal {
    /// Well-formedness: both text fields within their hard maxima.
    pub open spec fn wf(self) -> bool {
        self.title@.len() <= MAX_TITLE_LEN && self.description@.len() <= MAX_DESCRIPTION_LEN
    }
}

impl WiFiHotspot {
    pub open spec fn wf(self) -> bool {
        self.location@.len() <= MAX_LOCATION_LEN
    }
}

impl LogisticsPartner {
    pub open spec fn wf(self) -> bool {
        &&& self.partner_name@.len() <= MAX_PARTNER_NAME_LEN
        &&& self.service_areas@.len() <= MAX_SERVICE_AREAS
        &&& texts_within(self.service_areas@, MAX_AREA_LEN as int)
    }
}

impl Farm {
    pub open spec fn wf(self) -> bool {
        &&& self.farm_name@.len() <= MAX_FARM_NAME_LEN
        &&& self.location@.len() <= MAX_LOCATION_LEN
        &&& self.crop_types@.len() <= MAX_CROP_TYPES
        &&& texts_within(self.crop_types@, MAX_CROP_LEN as int)
    }
}

impl HealthcareProvider {
    pub open spec fn wf(self) -> bool {
        &&& self.provider_name@.len() <= MAX_PROVIDER_NAME_LEN
        &&& self.provider_type@.len() <= MAX_PROVIDER_TYPE_LEN
        &&& self.location@.len() <= MAX_LOCATION_LEN
        &&& self.license_number@.len() <= MAX_LICENSE_LEN
    }
}

impl TaxCollectionPoint {
    pub open spec fn wf(self) -> bool {
        &&& self.point_name@.len() <= MAX_POINT_NAME_LEN
        &&& self.authority_type@.len() <= MAX_AUTHORITY_TYPE_LEN
        &&& self.location@.len() <= MAX_LOCATION_LEN
        &&& self.jurisdiction@.len() <= MAX_JURISDICTION_LEN
    }
}

} // verus!
