//! Network-wide constants: token unit scale, default reward rates, staking
//! and governance parameters, and the bounds of every text field.

use vstd::prelude::*;

verus! {

/// Decimal places of the token unit.
pub const PKN_DECIMALS: u32 = 9;

/// Smallest-unit scale of the token: one whole token is this many units.
pub const UNIT_SCALE: u64 = 1_000_000_000;

/// Initial token supply: one billion whole tokens, in smallest units.
pub const INITIAL_SUPPLY: u64 = 1_000_000_000 * 1_000_000_000;

/// Default reward per gigabyte of hotspot traffic, in smallest units.
pub const DEFAULT_WIFI_REWARD_RATE: u64 = 100 * 1_000_000_000;

/// Default reward per completed delivery, in smallest units.
pub const DEFAULT_LOGISTICS_REWARD_RATE: u64 = 50 * 1_000_000_000;

/// Default reward per agricultural data submission, in smallest units.
pub const DEFAULT_AGRICULTURE_REWARD_RATE: u64 = 25 * 1_000_000_000;

/// Default reward per healthcare data submission, in smallest units.
pub const DEFAULT_HEALTHCARE_REWARD_RATE: u64 = 100 * 1_000_000_000;

/// Default reward per verified tax record, in smallest units.
pub const DEFAULT_TAXATION_REWARD_RATE: u64 = 150 * 1_000_000_000;

/// Smallest stake any pool accepts, in smallest units (100 whole tokens).
pub const MIN_STAKE_AMOUNT: u64 = 100 * 1_000_000_000;

/// Aggregate stake a user needs before creating a proposal (1000 tokens).
pub const GOVERNANCE_THRESHOLD: u64 = 1000 * 1_000_000_000;

/// Capacity preset of every staking pool (one million whole tokens).
pub const POOL_MAX_CAPACITY: u64 = 1_000_000 * 1_000_000_000;

pub const SECONDS_PER_HOUR: i64 = 3600;

pub const SECONDS_PER_DAY: i64 = 86400;

/// Length of every proposal's voting window, in seconds (seven days).
pub const VOTING_PERIOD: i64 = 7 * 86400;

/// Divisor that turns an annual rate in basis points into a per-second
/// rate: seconds per year times the 100 basis points in a percent.
pub const APY_SECONDS_DIVISOR: u64 = 365 * 24 * 3600 * 100;

/// Minimum seconds between two data submissions of the same asset.
pub const SUBMISSION_INTERVAL: i64 = 3600;

/// Minimum seconds between two network-wide reward distributions.
pub const DISTRIBUTION_INTERVAL: i64 = 86400;

pub const MAX_LOCATION_LEN: usize = 100;

pub const MAX_PARTNER_NAME_LEN: usize = 50;

pub const MAX_SERVICE_AREAS: usize = 10;

pub const MAX_AREA_LEN: usize = 30;

pub const MAX_FARM_NAME_LEN: usize = 50;

pub const MAX_CROP_TYPES: usize = 5;

pub const MAX_CROP_LEN: usize = 20;

pub const MAX_PROVIDER_NAME_LEN: usize = 100;

pub const MAX_PROVIDER_TYPE_LEN: usize = 50;

pub const MAX_LICENSE_LEN: usize = 50;

pub const MAX_POINT_NAME_LEN: usize = 100;

pub const MAX_AUTHORITY_TYPE_LEN: usize = 50;

pub const MAX_JURISDICTION_LEN: usize = 50;

pub const MAX_TITLE_LEN: usize = 100;

pub const MAX_DESCRIPTION_LEN: usize = 500;

} // verus!
