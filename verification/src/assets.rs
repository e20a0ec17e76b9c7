//! The five asset modules: registration of WiFi hotspots, logistics
//! partners, farms, healthcare providers and tax collection points, and
//! the usage-data submissions through which each earns rewards.
//!
//! All five follow one shape: parametrized validation, a rate-limit on
//! submissions, the shared submission reward formula of
//! [`crate::rewards`], and the shared crediting and counting interface of
//! [`crate::profile`]. Like every other operation they are all-or-nothing:
//! a rejection leaves every record untouched.

use vstd::prelude::*;
use crate::constants::{
    MAX_AREA_LEN, MAX_CROP_LEN, MAX_CROP_TYPES, MAX_FARM_NAME_LEN, MAX_JURISDICTION_LEN,
    MAX_LICENSE_LEN, MAX_LOCATION_LEN, MAX_PARTNER_NAME_LEN, MAX_POINT_NAME_LEN,
    MAX_PROVIDER_NAME_LEN, MAX_PROVIDER_TYPE_LEN, MAX_SERVICE_AREAS, MAX_AUTHORITY_TYPE_LEN,
    SUBMISSION_INTERVAL,
};
use crate::errors::DePINError;
use crate::profile::{
    count_asset, credit_reward, register_asset, spec_count_asset, spec_credit_reward,
    spec_register_asset, AssetCategory,
};
use crate::rewards::{calculate_submission_reward, spec_submission_reward};
use crate::state::{
    texts_within, AccountId, Farm, HealthcareProvider, LogisticsPartner, NetworkState,
    TaxCollectionPoint, UserProfile, WiFiHotspot,
};

verus! {

/// A submission score's effect on an asset's standing: up one point
/// (capped at 100) at or above `up`, down one (floored at zero) below
/// `down`, unchanged in between.
pub open spec fn spec_bumped_score(current: u8, score: u8, up: u8, down: u8) -> u8 {
    if score >= up {
        if current >= 100 {
            100u8
        } else {
            (current + 1) as u8
        }
    } else if score < down {
        if current >= 1 {
            (current - 1) as u8
        } else {
            0u8
        }
    } else {
        current
    }
}

fn bump_score(current: u8, score: u8, up: u8, down: u8) -> (r: u8)
    ensures
        r == spec_bumped_score(current, score, up, down),
{
    if score >= up {
        if current >= 100 {
            100
        } else {
            current + 1
        }
    } else if score < down {
        if current >= 1 {
            current - 1
        } else {
            0
        }
    } else {
        current
    }
}

/// Whether every byte string in `texts` is within `max` bytes.
fn all_texts_within(texts: &Vec<Vec<u8>>, max: usize) -> (r: bool)
    ensures
        r == texts_within(texts@, max as int),
{
    let mut i: usize = 0;
    while i < texts.len()
        invariant
            i <= texts@.len(),
            forall|k: int| 0 <= k < i ==> #[trigger] texts@[k]@.len() <= max,
        decreases texts@.len() - i,
    {
        if texts[i].len() > max {
            assert(texts@[i as int]@.len() > max);
            return false;
        }
        i = i + 1;
    }
    true
}

/// Whether a new submission at `now` respects the hourly rate limit,
/// measured from the asset's last submission; an interval that leaves the
/// machine range is an arithmetic error.
pub open spec fn spec_submission_window(last: i64, now: i64) -> Result<(), DePINError> {
    if now - last > i64::MAX || now - last < i64::MIN {
        Err(DePINError::ArithmeticOverflow)
    } else if now - last < SUBMISSION_INTERVAL {
        Err(DePINError::SubmissionTooFrequent)
    } else {
        Ok(())
    }
}

fn check_submission_window(last: i64, now: i64) -> (r: Result<(), DePINError>)
    ensures
        r == spec_submission_window(last, now),
{
    let since_last = match now.checked_sub(last) {
        Some(v) => v,
        None => {
            return Err(DePINError::ArithmeticOverflow);
        },
    };
    if since_last < SUBMISSION_INTERVAL {
        return Err(DePINError::SubmissionTooFrequent);
    }
    Ok(())
}

/// The outcome of registering a WiFi hotspot: the new record, the registry
/// with its hotspot count grown, and the owner's profile with its counter
/// grown, or the specific rejection.
pub open spec fn spec_register_wifi_hotspot(
    registry: NetworkState,
    profile: UserProfile,
    owner: AccountId,
    location: Vec<u8>,
    coverage_radius: u32,
    bandwidth_mbps: u32,
    now: i64,
) -> Result<(WiFiHotspot, NetworkState, UserProfile), DePINError> {
    if location@.len() > MAX_LOCATION_LEN {
        Err(DePINError::LocationTooLong)
    } else if coverage_radius == 0 || coverage_radius > 5000 {
        Err(DePINError::InvalidCoverageRadius)
    } else if bandwidth_mbps < 10 || bandwidth_mbps > 1000 {
        Err(DePINError::InvalidBandwidth)
    } else {
        match spec_count_asset(registry, AssetCategory::WiFiHotspot) {
            Err(e) => Err(e),
            Ok(registry_post) => match spec_register_asset(
                profile,
                AssetCategory::WiFiHotspot,
                now,
            ) {
                Err(e) => Err(e),
                Ok(profile_post) => Ok(
                    (
                        WiFiHotspot {
                            owner,
                            location,
                            coverage_radius,
                            bandwidth_mbps,
                            total_users_served: 0,
                            total_data_transferred: 0,
                            total_rewards_earned: 0,
                            last_data_submission: 0,
                            is_active: true,
                            reputation_score: 100,
                        },
                        registry_post,
                        profile_post,
                    ),
                ),
            },
        }
    }
}

/// Register a WiFi hotspot: bounded location text, a coverage radius of
/// 1 to 5000 meters and bandwidth of 10 to 1000 Mbps. On success returns
/// the new record (active, default reputation, zero totals) and counts it
/// on the registry and the owner's profile; on any rejection nothing
/// changes.
pub fn register_wifi_hotspot(
    registry: &mut NetworkState,
    profile: &mut UserProfile,
    owner: AccountId,
    location: Vec<u8>,
    coverage_radius: u32,
    bandwidth_mbps: u32,
    now: i64,
) -> (r: Result<WiFiHotspot, DePINError>)
    ensures
        match spec_register_wifi_hotspot(
            *old(registry),
            *old(profile),
            owner,
            location,
            coverage_radius,
            bandwidth_mbps,
            now,
        ) {
            Ok(post) => {
                &&& r == Ok::<WiFiHotspot, DePINError>(post.0)
                &&& *final(registry) == post.1
                &&& *final(profile) == post.2
            },
            Err(e) => {
                &&& r == Err::<WiFiHotspot, DePINError>(e)
                &&& *final(registry) == *old(registry)
                &&& *final(profile) == *old(profile)
            },
        },
{
    if location.len() > MAX_LOCATION_LEN {
        return Err(DePINError::LocationTooLong);
    }
    if coverage_radius == 0 || coverage_radius > 5000 {
        return Err(DePINError::InvalidCoverageRadius);
    }
    if bandwidth_mbps < 10 || bandwidth_mbps > 1000 {
        return Err(DePINError::InvalidBandwidth);
    }
    if registry.wifi_hotspots_count == u32::MAX || profile.wifi_hotspots == u8::MAX {
        return Err(DePINError::ArithmeticOverflow);
    }
    match count_asset(registry, AssetCategory::WiFiHotspot) {
        Ok(()) => {},
        Err(e) => {
            return Err(e);
        },
    }
    match register_asset(profile, AssetCategory::WiFiHotspot, now) {
        Ok(()) => {},
        Err(e) => {
            return Err(e);
        },
    }
    Ok(
        WiFiHotspot {
            owner,
            location,
            coverage_radius,
            bandwidth_mbps,
            total_users_served: 0,
            total_data_transferred: 0,
            total_rewards_earned: 0,
            last_data_submission: 0,
            is_active: true,
            reputation_score: 100,
        },
    )
}

/// The outcome of registering a logistics partner: the new record and the
/// updated registry and profile, or the specific rejection.
pub open spec fn spec_register_logistics_partner(
    registry: NetworkState,
    profile: UserProfile,
    owner: AccountId,
    partner_name: Vec<u8>,
    service_areas: Vec<Vec<u8>>,
    vehicle_count: u32,
    now: i64,
) -> Result<(LogisticsPartner, NetworkState, UserProfile), DePINError> {
    if partner_name@.len() > MAX_PARTNER_NAME_LEN {
        Err(DePINError::NameTooLong)
    } else if service_areas@.len() > MAX_SERVICE_AREAS {
        Err(DePINError::TooManyServiceAreas)
    } else if vehicle_count == 0 || vehicle_count > 1000 {
        Err(DePINError::InvalidVehicleCount)
    } else if !texts_within(service_areas@, MAX_AREA_LEN as int) {
        Err(DePINError::ServiceAreaTooLong)
    } else {
        match spec_count_asset(registry, AssetCategory::LogisticsPartner) {
            Err(e) => Err(e),
            Ok(registry_post) => match spec_register_asset(
                profile,
                AssetCategory::LogisticsPartner,
                now,
            ) {
                Err(e) => Err(e),
                Ok(profile_post) => Ok(
                    (
                        LogisticsPartner {
                            owner,
                            partner_name,
                            service_areas,
                            vehicle_count,
                            total_deliveries: 0,
                            total_distance_km: 0,
                            total_rewards_earned: 0,
                            last_data_submission: 0,
                            is_active: true,
                            efficiency_score: 100,
                        },
                        registry_post,
                        profile_post,
                    ),
                ),
            },
        }
    }
}

/// Register a logistics partner: bounded name, at most ten bounded
/// service areas, and a fleet of 1 to 1000 vehicles. On success returns
/// the new record and counts it on the registry and the owner's profile;
/// on any rejection nothing changes.
pub fn register_logistics_partner(
    registry: &mut NetworkState,
    profile: &mut UserProfile,
    owner: AccountId,
    partner_name: Vec<u8>,
    service_areas: Vec<Vec<u8>>,
    vehicle_count: u32,
    now: i64,
) -> (r: Result<LogisticsPartner, DePINError>)
    ensures
        match spec_register_logistics_partner(
            *old(registry),
            *old(profile),
            owner,
            partner_name,
            service_areas,
            vehicle_count,
            now,
        ) {
            Ok(post) => {
                &&& r == Ok::<LogisticsPartner, DePINError>(post.0)
                &&& *final(registry) == post.1
                &&& *final(profile) == post.2
            },
            Err(e) => {
                &&& r == Err::<LogisticsPartner, DePINError>(e)
                &&& *final(registry) == *old(registry)
                &&& *final(profile) == *old(profile)
            },
        },
{
    if partner_name.len() > MAX_PARTNER_NAME_LEN {
        return Err(DePINError::NameTooLong);
    }
    if service_areas.len() > MAX_SERVICE_AREAS {
        return Err(DePINError::TooManyServiceAreas);
    }
    if vehicle_count == 0 || vehicle_count > 1000 {
        return Err(DePINError::InvalidVehicleCount);
    }
    if !all_texts_within(&service_areas, MAX_AREA_LEN) {
        return Err(DePINError::ServiceAreaTooLong);
    }
    if registry.logistics_partners_count == u32::MAX || profile.logistics_partners == u8::MAX {
        return Err(DePINError::ArithmeticOverflow);
    }
    match count_asset(registry, AssetCategory::LogisticsPartner) {
        Ok(()) => {},
        Err(e) => {
            return Err(e);
        },
    }
    match register_asset(profile, AssetCategory::LogisticsPartner, now) {
        Ok(()) => {},
        Err(e) => {
            return Err(e);
        },
    }
    Ok(
        LogisticsPartner {
            owner,
            partner_name,
            service_areas,
            vehicle_count,
            total_deliveries: 0,
            total_distance_km: 0,
            total_rewards_earned: 0,
            last_data_submission: 0,
            is_active: true,
            efficiency_score: 100,
        },
    )
}

/// The outcome of registering a farm: the new record and the updated
/// registry and profile, or the specific rejection.
pub open spec fn spec_register_farm(
    registry: NetworkState,
    profile: UserProfile,
    owner: AccountId,
    farm_name: Vec<u8>,
    location: Vec<u8>,
    farm_size_acres: u32,
    crop_types: Vec<Vec<u8>>,
    now: i64,
) -> Result<(Farm, NetworkState, UserProfile), DePINError> {
    if farm_name@.len() > MAX_FARM_NAME_LEN {
        Err(DePINError::NameTooLong)
    } else if location@.len() > MAX_LOCATION_LEN {
        Err(DePINError::LocationTooLong)
    } else if farm_size_acres == 0 || farm_size_acres > 10000 {
        Err(DePINError::InvalidFarmSize)
    } else if crop_types@.len() > MAX_CROP_TYPES {
        Err(DePINError::TooManyCropTypes)
    } else if !texts_within(crop_types@, MAX_CROP_LEN as int) {
        Err(DePINError::CropNameTooLong)
    } else {
        match spec_count_asset(registry, AssetCategory::Farm) {
            Err(e) => Err(e),
            Ok(registry_post) => match spec_register_asset(profile, AssetCategory::Farm, now) {
                Err(e) => Err(e),
                Ok(profile_post) => Ok(
                    (
                        Farm {
                            owner,
                            farm_name,
                            location,
                            farm_size_acres,
                            crop_types,
                            total_data_submissions: 0,
                            total_rewards_earned: 0,
                            last_data_submission: 0,
                            is_active: true,
                            yield_improvement: 0,
                        },
                        registry_post,
                        profile_post,
                    ),
                ),
            },
        }
    }
}

/// Register a farm: bounded name and location text, a size of 1 to 10000
/// acres, and at most five bounded crop types. On success returns the new
/// record and counts it on the registry and the owner's profile; on any
/// rejection nothing changes.
pub fn register_farm(
    registry: &mut NetworkState,
    profile: &mut UserProfile,
    owner: AccountId,
    farm_name: Vec<u8>,
    location: Vec<u8>,
    farm_size_acres: u32,
    crop_types: Vec<Vec<u8>>,
    now: i64,
) -> (r: Result<Farm, DePINError>)
    ensures
        match spec_register_farm(
            *old(registry),
            *old(profile),
            owner,
            farm_name,
            location,
            farm_size_acres,
            crop_types,
            now,
        ) {
            Ok(post) => {
                &&& r == Ok::<Farm, DePINError>(post.0)
                &&& *final(registry) == post.1
                &&& *final(profile) == post.2
            },
            Err(e) => {
                &&& r == Err::<Farm, DePINError>(e)
                &&& *final(registry) == *old(registry)
                &&& *final(profile) == *old(profile)
            },
        },
{
    if farm_name.len() > MAX_FARM_NAME_LEN {
        return Err(DePINError::NameTooLong);
    }
    if location.len() > MAX_LOCATION_LEN {
        return Err(DePINError::LocationTooLong);
    }
    if farm_size_acres == 0 || farm_size_acres > 10000 {
        return Err(DePINError::InvalidFarmSize);
    }
    if crop_types.len() > MAX_CROP_TYPES {
        return Err(DePINError::TooManyCropTypes);
    }
    if !all_texts_within(&crop_types, MAX_CROP_LEN) {
        return Err(DePINError::CropNameTooLong);
    }
    if registry.farms_count == u32::MAX || profile.farms == u8::MAX {
        return Err(DePINError::ArithmeticOverflow);
    }
    match count_asset(registry, AssetCategory::Farm) {
        Ok(()) => {},
        Err(e) => {
            return Err(e);
        },
    }
    match register_asset(profile, AssetCategory::Farm, now) {
        Ok(()) => {},
        Err(e) => {
            return Err(e);
        },
    }
    Ok(
        Farm {
            owner,
            farm_name,
            location,
            farm_size_acres,
            crop_types,
            total_data_submissions: 0,
            total_rewards_earned: 0,
            last_data_submission: 0,
            is_active: true,
            yield_improvement: 0,
        },
    )
}

/// The outcome of registering a healthcare provider: the new record and
/// the updated registry and profile, or the specific rejection.
pub open spec fn spec_register_healthcare_provider(
    registry: NetworkState,
    profile: UserProfile,
    owner: AccountId,
    provider_name: Vec<u8>,
    provider_type: Vec<u8>,
    location: Vec<u8>,
    license_number: Vec<u8>,
    now: i64,
) -> Result<(HealthcareProvider, NetworkState, UserProfile), DePINError> {
    if provider_name@.len() > MAX_PROVIDER_NAME_LEN {
        Err(DePINError::NameTooLong)
    } else if provider_type@.len() > MAX_PROVIDER_TYPE_LEN {
        Err(DePINError::NameTooLong)
    } else if location@.len() > MAX_LOCATION_LEN {
        Err(DePINError::LocationTooLong)
    } else if license_number@.len() > MAX_LICENSE_LEN {
        Err(DePINError::NameTooLong)
    } else {
        match spec_count_asset(registry, AssetCategory::HealthcareProvider) {
            Err(e) => Err(e),
            Ok(registry_post) => match spec_register_asset(
                profile,
                AssetCategory::HealthcareProvider,
                now,
            ) {
                Err(e) => Err(e),
                Ok(profile_post) => Ok(
                    (
                        HealthcareProvider {
                            owner,
                            provider_name,
                            provider_type,
                            location,
                            license_number,
                            total_data_submissions: 0,
                            total_records_collected: 0,
                            total_rewards_earned: 0,
                            last_data_submission: 0,
                            is_active: true,
                            compliance_score: 100,
                        },
                        registry_post,
                        profile_post,
                    ),
                ),
            },
        }
    }
}

/// Register a healthcare provider: bounded name, type, location and
/// license text. On success returns the new record and counts it on the
/// registry; the profile only notes the activity. On any rejection
/// nothing changes.
pub fn register_healthcare_provider(
    registry: &mut NetworkState,
    profile: &mut UserProfile,
    owner: AccountId,
    provider_name: Vec<u8>,
    provider_type: Vec<u8>,
    location: Vec<u8>,
    license_number: Vec<u8>,
    now: i64,
) -> (r: Result<HealthcareProvider, DePINError>)
    ensures
        match spec_register_healthcare_provider(
            *old(registry),
            *old(profile),
            owner,
            provider_name,
            provider_type,
            location,
            license_number,
            now,
        ) {
            Ok(post) => {
                &&& r == Ok::<HealthcareProvider, DePINError>(post.0)
                &&& *final(registry) == post.1
                &&& *final(profile) == post.2
            },
            Err(e) => {
                &&& r == Err::<HealthcareProvider, DePINError>(e)
                &&& *final(registry) == *old(registry)
                &&& *final(profile) == *old(profile)
            },
        },
{
    if provider_name.len() > MAX_PROVIDER_NAME_LEN {
        return Err(DePINError::NameTooLong);
    }
    if provider_type.len() > MAX_PROVIDER_TYPE_LEN {
        return Err(DePINError::NameTooLong);
    }
    if location.len() > MAX_LOCATION_LEN {
        return Err(DePINError::LocationTooLong);
    }
    if license_number.len() > MAX_LICENSE_LEN {
        return Err(DePINError::NameTooLong);
    }
    if registry.healthcare_providers_count == u32::MAX {
        return Err(DePINError::ArithmeticOverflow);
    }
    match count_asset(registry, AssetCategory::HealthcareProvider) {
        Ok(()) => {},
        Err(e) => {
            return Err(e);
        },
    }
    match register_asset(profile, AssetCategory::HealthcareProvider, now) {
        Ok(()) => {},
        Err(e) => {
            return Err(e);
        },
    }
    Ok(
        HealthcareProvider {
            owner,
            provider_name,
            provider_type,
            location,
            license_number,
            total_data_submissions: 0,
            total_records_collected: 0,
            total_rewards_earned: 0,
            last_data_submission: 0,
            is_active: true,
            compliance_score: 100,
        },
    )
}

/// The outcome of registering a tax collection point: the new record and
/// the updated registry and profile, or the specific rejection.
pub open spec fn spec_register_tax_point(
    registry: NetworkState,
    profile: UserProfile,
    owner: AccountId,
    point_name: Vec<u8>,
    authority_type: Vec<u8>,
    location: Vec<u8>,
    jurisdiction: Vec<u8>,
    now: i64,
) -> Result<(TaxCollectionPoint, NetworkState, UserProfile), DePINError> {
    if point_name@.len() > MAX_POINT_NAME_LEN {
        Err(DePINError::NameTooLong)
    } else if authority_type@.len() > MAX_AUTHORITY_TYPE_LEN {
        Err(DePINError::NameTooLong)
    } else if location@.len() > MAX_LOCATION_LEN {
        Err(DePINError::LocationTooLong)
    } else if jurisdiction@.len() > MAX_JURISDICTION_LEN {
        Err(DePINError::NameTooLong)
    } else {
        match spec_count_asset(registry, AssetCategory::TaxCollectionPoint) {
            Err(e) => Err(e),
            Ok(registry_post) => match spec_register_asset(
                profile,
                AssetCategory::TaxCollectionPoint,
                now,
            ) {
                Err(e) => Err(e),
                Ok(profile_post) => Ok(
                    (
                        TaxCollectionPoint {
                            owner,
                            point_name,
                            authority_type,
                            location,
                            jurisdiction,
                            total_records_submitted: 0,
                            total_amount_processed: 0,
                            total_rewards_earned: 0,
                            last_data_submission: 0,
                            is_active: true,
                            verification_score: 100,
                        },
                        registry_post,
                        profile_post,
                    ),
                ),
            },
        }
    }
}

/// Register a tax collection point: bounded name, authority type,
/// location and jurisdiction text. On success returns the new record and
/// counts it on the registry; the profile only notes the activity. On any
/// rejection nothing changes.
pub fn register_tax_point(
    registry: &mut NetworkState,
    profile: &mut UserProfile,
    owner: AccountId,
    point_name: Vec<u8>,
    authority_type: Vec<u8>,
    location: Vec<u8>,
    jurisdiction: Vec<u8>,
    now: i64,
) -> (r: Result<TaxCollectionPoint, DePINError>)
    ensures
        match spec_register_tax_point(
            *old(registry),
            *old(profile),
            owner,
            point_name,
            authority_type,
            location,
            jurisdiction,
            now,
        ) {
            Ok(post) => {
                &&& r == Ok::<TaxCollectionPoint, DePINError>(post.0)
                &&& *final(registry) == post.1
                &&& *final(profile) == post.2
            },
            Err(e) => {
                &&& r == Err::<TaxCollectionPoint, DePINError>(e)
                &&& *final(registry) == *old(registry)
                &&& *final(profile) == *old(profile)
            },
        },
{
    if point_name.len() > MAX_POINT_NAME_LEN {
        return Err(DePINError::NameTooLong);
    }
    if authority_type.len() > MAX_AUTHORITY_TYPE_LEN {
        return Err(DePINError::NameTooLong);
    }
    if location.len() > MAX_LOCATION_LEN {
        return Err(DePINError::LocationTooLong);
    }
    if jurisdiction.len() > MAX_JURISDICTION_LEN {
        return Err(DePINError::NameTooLong);
    }
    if registry.tax_points_count == u32::MAX {
        return Err(DePINError::ArithmeticOverflow);
    }
    match count_asset(registry, AssetCategory::TaxCollectionPoint) {
        Ok(()) => {},
        Err(e) => {
            return Err(e);
        },
    }
    match register_asset(profile, AssetCategory::TaxCollectionPoint, now) {
        Ok(()) => {},
        Err(e) => {
            return Err(e);
        },
    }
    Ok(
        TaxCollectionPoint {
            owner,
            point_name,
            authority_type,
            location,
            jurisdiction,
            total_records_submitted: 0,
            total_amount_processed: 0,
            total_rewards_earned: 0,
            last_data_submission: 0,
            is_active: true,
            verification_score: 100,
        },
    )
}

/// The outcome of a hotspot usage submission at time `now`: the updated
/// hotspot record, the owner's credited profile and the reward earned, or
/// the specific rejection.
pub open spec fn spec_submit_wifi_data(
    hotspot: WiFiHotspot,
    profile: UserProfile,
    registry: NetworkState,
    users_connected: u32,
    data_transferred_gb: u64,
    uptime_percentage: u8,
    now: i64,
) -> Result<(WiFiHotspot, UserProfile, u64), DePINError> {
    if uptime_percentage > 100 {
        Err(DePINError::InvalidUptime)
    } else if data_transferred_gb == 0 {
        Err(DePINError::NoDataTransferred)
    } else {
        match spec_submission_window(hotspot.last_data_submission, now) {
            Err(e) => Err(e),
            Ok(_) => match spec_submission_reward(
                data_transferred_gb,
                registry.wifi_reward_rate,
                uptime_percentage as u64,
            ) {
                Err(e) => Err(e),
                Ok(reward) => if hotspot.total_users_served + users_connected > u32::MAX
                    || hotspot.total_data_transferred + data_transferred_gb > u64::MAX
                    || hotspot.total_rewards_earned + reward > u64::MAX {
                    Err(DePINError::ArithmeticOverflow)
                } else {
                    match spec_credit_reward(profile, reward, now) {
                        Err(e) => Err(e),
                        Ok(profile_post) => Ok(
                            (
                                WiFiHotspot {
                                    total_users_served: (hotspot.total_users_served
                                        + users_connected) as u32,
                                    total_data_transferred: (hotspot.total_data_transferred
                                        + data_transferred_gb) as u64,
                                    total_rewards_earned: (hotspot.total_rewards_earned
                                        + reward) as u64,
                                    last_data_submission: now,
                                    reputation_score: spec_bumped_score(
                                        hotspot.reputation_score,
                                        uptime_percentage,
                                        95,
                                        80,
                                    ),
                                    ..hotspot
                                },
                                profile_post,
                                reward,
                            ),
                        ),
                    }
                },
            },
        }
    }
}

/// Submit hotspot usage data: the reward is the gigabytes transferred at
/// the network's WiFi rate, weighted by the uptime percentage. At most
/// one submission per hour; an excellent uptime lifts the hotspot's
/// reputation, a poor one lowers it. On success the reward is credited to
/// the owner's profile and returned for the host to issue; on any
/// rejection nothing changes.
pub fn submit_wifi_data(
    hotspot: &mut WiFiHotspot,
    profile: &mut UserProfile,
    registry: &NetworkState,
    users_connected: u32,
    data_transferred_gb: u64,
    uptime_percentage: u8,
    now: i64,
) -> (r: Result<u64, DePINError>)
    ensures
        match spec_submit_wifi_data(
            *old(hotspot),
            *old(profile),
            *registry,
            users_connected,
            data_transferred_gb,
            uptime_percentage,
            now,
        ) {
            Ok(post) => {
                &&& r == Ok::<u64, DePINError>(post.2)
                &&& *final(hotspot) == post.0
                &&& *final(profile) == post.1
            },
            Err(e) => {
                &&& r == Err::<u64, DePINError>(e)
                &&& *final(hotspot) == *old(hotspot)
                &&& *final(profile) == *old(profile)
            },
        },
{
    if uptime_percentage > 100 {
        return Err(DePINError::InvalidUptime);
    }
    if data_transferred_gb == 0 {
        return Err(DePINError::NoDataTransferred);
    }
    match check_submission_window(hotspot.last_data_submission, now) {
        Ok(()) => {},
        Err(e) => {
            return Err(e);
        },
    }
    let reward = match calculate_submission_reward(
        data_transferred_gb,
        registry.wifi_reward_rate,
        uptime_percentage as u64,
    ) {
        Ok(v) => v,
        Err(e) => {
            return Err(e);
        },
    };
    let new_users = match hotspot.total_users_served.checked_add(users_connected) {
        Some(v) => v,
        None => {
            return Err(DePINError::ArithmeticOverflow);
        },
    };
    let new_data = match hotspot.total_data_transferred.checked_add(data_transferred_gb) {
        Some(v) => v,
        None => {
            return Err(DePINError::ArithmeticOverflow);
        },
    };
    let new_earned = match hotspot.total_rewards_earned.checked_add(reward) {
        Some(v) => v,
        None => {
            return Err(DePINError::ArithmeticOverflow);
        },
    };
    if profile.total_earned > u64::MAX - reward {
        return Err(DePINError::ArithmeticOverflow);
    }
    hotspot.total_users_served = new_users;
    hotspot.total_data_transferred = new_data;
    hotspot.total_rewards_earned = new_earned;
    hotspot.last_data_submission = now;
    hotspot.reputation_score = bump_score(hotspot.reputation_score, uptime_percentage, 95, 80);
    match credit_reward(profile, reward, now) {
        Ok(()) => {},
        Err(e) => {
            return Err(e);
        },
    }
    Ok(reward)
}

/// The outcome of a logistics delivery submission at time `now`: the
/// updated partner record, the owner's credited profile and the reward
/// earned, or the specific rejection.
pub open spec fn spec_submit_logistics_data(
    partner: LogisticsPartner,
    profile: UserProfile,
    registry: NetworkState,
    deliveries_completed: u32,
    distance_traveled_km: u32,
    route_optimization_score: u8,
    now: i64,
) -> Result<(LogisticsPartner, UserProfile, u64), DePINError> {
    if route_optimization_score > 100 {
        Err(DePINError::InvalidScore)
    } else if deliveries_completed == 0 {
        Err(DePINError::NoDeliveries)
    } else {
        match spec_submission_window(partner.last_data_submission, now) {
            Err(e) => Err(e),
            Ok(_) => match spec_submission_reward(
                deliveries_completed as u64,
                registry.logistics_reward_rate,
                route_optimization_score as u64,
            ) {
                Err(e) => Err(e),
                Ok(reward) => if partner.total_deliveries + deliveries_completed > u32::MAX
                    || partner.total_distance_km + distance_traveled_km > u32::MAX
                    || partner.total_rewards_earned + reward > u64::MAX {
                    Err(DePINError::ArithmeticOverflow)
                } else {
                    match spec_credit_reward(profile, reward, now) {
                        Err(e) => Err(e),
                        Ok(profile_post) => Ok(
                            (
                                LogisticsPartner {
                                    total_deliveries: (partner.total_deliveries
                                        + deliveries_completed) as u32,
                                    total_distance_km: (partner.total_distance_km
                                        + distance_traveled_km) as u32,
                                    total_rewards_earned: (partner.total_rewards_earned
                                        + reward) as u64,
                                    last_data_submission: now,
                                    efficiency_score: spec_bumped_score(
                                        partner.efficiency_score,
                                        route_optimization_score,
                                        90,
                                        70,
                                    ),
                                    ..partner
                                },
                                profile_post,
                                reward,
                            ),
                        ),
                    }
                },
            },
        }
    }
}

/// Submit logistics delivery data: the reward is the deliveries completed
/// at the network's logistics rate, weighted by the route optimization
/// score. At most one submission per hour; a high score lifts the
/// partner's efficiency standing, a low one lowers it. The fuel
/// efficiency reading is recorded by the host but enters no formula. On
/// success the reward is credited to the owner's profile and returned; on
/// any rejection nothing changes.
pub fn submit_logistics_data(
    partner: &mut LogisticsPartner,
    profile: &mut UserProfile,
    registry: &NetworkState,
    deliveries_completed: u32,
    distance_traveled_km: u32,
    fuel_efficiency: u32,
    route_optimization_score: u8,
    now: i64,
) -> (r: Result<u64, DePINError>)
    ensures
        match spec_submit_logistics_data(
            *old(partner),
            *old(profile),
            *registry,
            deliveries_completed,
            distance_traveled_km,
            route_optimization_score,
            now,
        ) {
            Ok(post) => {
                &&& r == Ok::<u64, DePINError>(post.2)
                &&& *final(partner) == post.0
                &&& *final(profile) == post.1
            },
            Err(e) => {
                &&& r == Err::<u64, DePINError>(e)
                &&& *final(partner) == *old(partner)
                &&& *final(profile) == *old(profile)
            },
        },
{
    let _ = fuel_efficiency;
    if route_optimization_score > 100 {
        return Err(DePINError::InvalidScore);
    }
    if deliveries_completed == 0 {
        return Err(DePINError::NoDeliveries);
    }
    match check_submission_window(partner.last_data_submission, now) {
        Ok(()) => {},
        Err(e) => {
            return Err(e);
        },
    }
    let reward = match calculate_submission_reward(
        deliveries_completed as u64,
        registry.logistics_reward_rate,
        route_optimization_score as u64,
    ) {
        Ok(v) => v,
        Err(e) => {
            return Err(e);
        },
    };
    let new_deliveries = match partner.total_deliveries.checked_add(deliveries_completed) {
        Some(v) => v,
        None => {
            return Err(DePINError::ArithmeticOverflow);
        },
    };
    let new_distance = match partner.total_distance_km.checked_add(distance_traveled_km) {
        Some(v) => v,
        None => {
            return Err(DePINError::ArithmeticOverflow);
        },
    };
    let new_earned = match partner.total_rewards_earned.checked_add(reward) {
        Some(v) => v,
        None => {
            return Err(DePINError::ArithmeticOverflow);
        },
    };
    if profile.total_earned > u64::MAX - reward {
        return Err(DePINError::ArithmeticOverflow);
    }
    partner.total_deliveries = new_deliveries;
    partner.total_distance_km = new_distance;
    partner.total_rewards_earned = new_earned;
    partner.last_data_submission = now;
    partner.efficiency_score = bump_score(partner.efficiency_score, route_optimization_score, 90, 70);
    match credit_reward(profile, reward, now) {
        Ok(()) => {},
        Err(e) => {
            return Err(e);
        },
    }
    Ok(reward)
}

/// The outcome of an agricultural sensor submission at time `now`: the
/// updated farm record, the owner's credited profile and the reward
/// earned, or the specific rejection.
pub open spec fn spec_submit_agriculture_data(
    farm: Farm,
    profile: UserProfile,
    registry: NetworkState,
    soil_moisture: u8,
    temperature: i16,
    humidity: u8,
    ph_level: u8,
    now: i64,
) -> Result<(Farm, UserProfile, u64), DePINError> {
    if soil_moisture > 100 {
        Err(DePINError::InvalidMoisture)
    } else if humidity > 100 {
        Err(DePINError::InvalidHumidity)
    } else if ph_level > 14 {
        Err(DePINError::InvalidPH)
    } else if temperature < -50 || temperature > 70 {
        Err(DePINError::InvalidTemperature)
    } else {
        match spec_submission_window(farm.last_data_submission, now) {
            Err(e) => Err(e),
            Ok(_) => {
                let reward = registry.agriculture_reward_rate;
                if farm.total_data_submissions + 1 > u32::MAX || farm.total_rewards_earned + reward
                    > u64::MAX {
                    Err(DePINError::ArithmeticOverflow)
                } else {
                    match spec_credit_reward(profile, reward, now) {
                        Err(e) => Err(e),
                        Ok(profile_post) => Ok(
                            (
                                Farm {
                                    total_data_submissions: (farm.total_data_submissions
                                        + 1) as u32,
                                    total_rewards_earned: (farm.total_rewards_earned
                                        + reward) as u64,
                                    last_data_submission: now,
                                    ..farm
                                },
                                profile_post,
                                reward,
                            ),
                        ),
                    }
                }
            },
        }
    }
}

/// Submit agricultural sensor data: each in-range submission earns the
/// network's flat agriculture rate. At most one submission per hour. On
/// success the reward is credited to the owner's profile and returned; on
/// any rejection nothing changes.
pub fn submit_agriculture_data(
    farm: &mut Farm,
    profile: &mut UserProfile,
    registry: &NetworkState,
    soil_moisture: u8,
    temperature: i16,
    humidity: u8,
    ph_level: u8,
    now: i64,
) -> (r: Result<u64, DePINError>)
    ensures
        match spec_submit_agriculture_data(
            *old(farm),
            *old(profile),
            *registry,
            soil_moisture,
            temperature,
            humidity,
            ph_level,
            now,
        ) {
            Ok(post) => {
                &&& r == Ok::<u64, DePINError>(post.2)
                &&& *final(farm) == post.0
                &&& *final(profile) == post.1
            },
            Err(e) => {
                &&& r == Err::<u64, DePINError>(e)
                &&& *final(farm) == *old(farm)
                &&& *final(profile) == *old(profile)
            },
        },
{
    if soil_moisture > 100 {
        return Err(DePINError::InvalidMoisture);
    }
    if humidity > 100 {
        return Err(DePINError::InvalidHumidity);
    }
    if ph_level > 14 {
        return Err(DePINError::InvalidPH);
    }
    if temperature < -50 || temperature > 70 {
        return Err(DePINError::InvalidTemperature);
    }
    match check_submission_window(farm.last_data_submission, now) {
        Ok(()) => {},
        Err(e) => {
            return Err(e);
        },
    }
    let reward = registry.agriculture_reward_rate;
    let new_submissions = match farm.total_data_submissions.checked_add(1) {
        Some(v) => v,
        None => {
            return Err(DePINError::ArithmeticOverflow);
        },
    };
    let new_earned = match farm.total_rewards_earned.checked_add(reward) {
        Some(v) => v,
        None => {
            return Err(DePINError::ArithmeticOverflow);
        },
    };
    if profile.total_earned > u64::MAX - reward {
        return Err(DePINError::ArithmeticOverflow);
    }
    farm.total_data_submissions = new_submissions;
    farm.total_rewards_earned = new_earned;
    farm.last_data_submission = now;
    match credit_reward(profile, reward, now) {
        Ok(()) => {},
        Err(e) => {
            return Err(e);
        },
    }
    Ok(reward)
}

/// The outcome of a healthcare records submission at time `now`: the
/// updated provider record, the owner's credited profile and the reward
/// earned, or the specific rejection.
pub open spec fn spec_submit_healthcare_data(
    provider: HealthcareProvider,
    profile: UserProfile,
    registry: NetworkState,
    records_count: u32,
    data_quality_score: u8,
    now: i64,
) -> Result<(HealthcareProvider, UserProfile, u64), DePINError> {
    if data_quality_score > 100 {
        Err(DePINError::InvalidScore)
    } else if records_count == 0 {
        Err(DePINError::NoDataTransferred)
    } else {
        match spec_submission_window(provider.last_data_submission, now) {
            Err(e) => Err(e),
            Ok(_) => match spec_submission_reward(
                records_count as u64,
                registry.healthcare_reward_rate,
                data_quality_score as u64,
            ) {
                Err(e) => Err(e),
                Ok(reward) => if provider.total_data_submissions + 1 > u32::MAX
                    || provider.total_records_collected + records_count > u32::MAX
                    || provider.total_rewards_earned + reward > u64::MAX {
                    Err(DePINError::ArithmeticOverflow)
                } else {
                    match spec_credit_reward(profile, reward, now) {
                        Err(e) => Err(e),
                        Ok(profile_post) => Ok(
                            (
                                HealthcareProvider {
                                    total_data_submissions: (provider.total_data_submissions
                                        + 1) as u32,
                                    total_records_collected: (provider.total_records_collected
                                        + records_count) as u32,
                                    total_rewards_earned: (provider.total_rewards_earned
                                        + reward) as u64,
                                    last_data_submission: now,
                                    compliance_score: spec_bumped_score(
                                        provider.compliance_score,
                                        data_quality_score,
                                        95,
                                        80,
                                    ),
                                    ..provider
                                },
                                profile_post,
                                reward,
                            ),
                        ),
                    }
                },
            },
        }
    }
}

/// Submit healthcare records data: the reward is the record count at the
/// network's healthcare rate, weighted by the data quality score. At most
/// one submission per hour; a high score lifts the provider's compliance
/// standing, a low one lowers it. On success the reward is credited to
/// the owner's profile and returned; on any rejection nothing changes.
pub fn submit_healthcare_data(
    provider: &mut HealthcareProvider,
    profile: &mut UserProfile,
    registry: &NetworkState,
    records_count: u32,
    data_quality_score: u8,
    now: i64,
) -> (r: Result<u64, DePINError>)
    ensures
        match spec_submit_healthcare_data(
            *old(provider),
            *old(profile),
            *registry,
            records_count,
            data_quality_score,
            now,
        ) {
            Ok(post) => {
                &&& r == Ok::<u64, DePINError>(post.2)
                &&& *final(provider) == post.0
                &&& *final(profile) == post.1
            },
            Err(e) => {
                &&& r == Err::<u64, DePINError>(e)
                &&& *final(provider) == *old(provider)
                &&& *final(profile) == *old(profile)
            },
        },
{
    if data_quality_score > 100 {
        return Err(DePINError::InvalidScore);
    }
    if records_count == 0 {
        return Err(DePINError::NoDataTransferred);
    }
    match check_submission_window(provider.last_data_submission, now) {
        Ok(()) => {},
        Err(e) => {
            return Err(e);
        },
    }
    let reward = match calculate_submission_reward(
        records_count as u64,
        registry.healthcare_reward_rate,
        data_quality_score as u64,
    ) {
        Ok(v) => v,
        Err(e) => {
            return Err(e);
        },
    };
    let new_submissions = match provider.total_data_submissions.checked_add(1) {
        Some(v) => v,
        None => {
            return Err(DePINError::ArithmeticOverflow);
        },
    };
    let new_records = match provider.total_records_collected.checked_add(records_count) {
        Some(v) => v,
        None => {
            return Err(DePINError::ArithmeticOverflow);
        },
    };
    let new_earned = match provider.total_rewards_earned.checked_add(reward) {
        Some(v) => v,
        None => {
            return Err(DePINError::ArithmeticOverflow);
        },
    };
    if profile.total_earned > u64::MAX - reward {
        return Err(DePINError::ArithmeticOverflow);
    }
    provider.total_data_submissions = new_submissions;
    provider.total_records_collected = new_records;
    provider.total_rewards_earned = new_earned;
    provider.last_data_submission = now;
    provider.compliance_score = bump_score(provider.compliance_score, data_quality_score, 95, 80);
    match credit_reward(profile, reward, now) {
        Ok(()) => {},
        Err(e) => {
            return Err(e);
        },
    }
    Ok(reward)
}

/// The outcome of a taxation records submission at time `now`: the
/// updated collection point record, the owner's credited profile and the
/// reward earned, or the specific rejection.
pub open spec fn spec_submit_taxation_data(
    point: TaxCollectionPoint,
    profile: UserProfile,
    registry: NetworkState,
    records_count: u32,
    amount_processed: u64,
    verification_score: u8,
    now: i64,
) -> Result<(TaxCollectionPoint, UserProfile, u64), DePINError> {
    if verification_score > 100 {
        Err(DePINError::InvalidScore)
    } else if records_count == 0 {
        Err(DePINError::NoDataTransferred)
    } else {
        match spec_submission_window(point.last_data_submission, now) {
            Err(e) => Err(e),
            Ok(_) => match spec_submission_reward(
                records_count as u64,
                registry.taxation_reward_rate,
                verification_score as u64,
            ) {
                Err(e) => Err(e),
                Ok(reward) => if point.total_records_submitted + records_count > u32::MAX
                    || point.total_amount_processed + amount_processed > u64::MAX
                    || point.total_rewards_earned + reward > u64::MAX {
                    Err(DePINError::ArithmeticOverflow)
                } else {
                    match spec_credit_reward(profile, reward, now) {
                        Err(e) => Err(e),
                        Ok(profile_post) => Ok(
                            (
                                TaxCollectionPoint {
                                    total_records_submitted: (point.total_records_submitted
                                        + records_count) as u32,
                                    total_amount_processed: (point.total_amount_processed
                                        + amount_processed) as u64,
                                    total_rewards_earned: (point.total_rewards_earned
                                        + reward) as u64,
                                    last_data_submission: now,
                                    verification_score: spec_bumped_score(
                                        point.verification_score,
                                        verification_score,
                                        95,
                                        80,
                                    ),
                                    ..point
                                },
                                profile_post,
                                reward,
                            ),
                        ),
                    }
                },
            },
        }
    }
}

/// Submit taxation records data: the reward is the record count at the
/// network's taxation rate, weighted by the verification score. At most
/// one submission per hour; a high score lifts the point's verification
/// standing, a low one lowers it. On success the reward is credited to
/// the owner's profile and returned; on any rejection nothing changes.
pub fn submit_taxation_data(
    point: &mut TaxCollectionPoint,
    profile: &mut UserProfile,
    registry: &NetworkState,
    records_count: u32,
    amount_processed: u64,
    verification_score: u8,
    now: i64,
) -> (r: Result<u64, DePINError>)
    ensures
        match spec_submit_taxation_data(
            *old(point),
            *old(profile),
            *registry,
            records_count,
            amount_processed,
            verification_score,
            now,
        ) {
            Ok(post) => {
                &&& r == Ok::<u64, DePINError>(post.2)
                &&& *final(point) == post.0
                &&& *final(profile) == post.1
            },
            Err(e) => {
                &&& r == Err::<u64, DePINError>(e)
                &&& *final(point) == *old(point)
                &&& *final(profile) == *old(profile)
            },
        },
{
    if verification_score > 100 {
        return Err(DePINError::InvalidScore);
    }
    if records_count == 0 {
        return Err(DePINError::NoDataTransferred);
    }
    match check_submission_window(point.last_data_submission, now) {
        Ok(()) => {},
        Err(e) => {
            return Err(e);
        },
    }
    let reward = match calculate_submission_reward(
        records_count as u64,
        registry.taxation_reward_rate,
        verification_score as u64,
    ) {
        Ok(v) => v,
        Err(e) => {
            return Err(e);
        },
    };
    let new_records = match point.total_records_submitted.checked_add(records_count) {
        Some(v) => v,
        None => {
            return Err(DePINError::ArithmeticOverflow);
        },
    };
    let new_amount = match point.total_amount_processed.checked_add(amount_processed) {
        Some(v) => v,
        None => {
            return Err(DePINError::ArithmeticOverflow);
        },
    };
    let new_earned = match point.total_rewards_earned.checked_add(reward) {
        Some(v) => v,
        None => {
            return Err(DePINError::ArithmeticOverflow);
        },
    };
    if profile.total_earned > u64::MAX - reward {
        return Err(DePINError::ArithmeticOverflow);
    }
    point.total_records_submitted = new_records;
    point.total_amount_processed = new_amount;
    point.total_rewards_earned = new_earned;
    point.last_data_submission = now;
    point.verification_score = bump_score(point.verification_score, verification_score, 95, 80);
    match credit_reward(profile, reward, now) {
        Ok(()) => {},
        Err(e) => {
            return Err(e);
        },
    }
    Ok(reward)
}

} // verus!
