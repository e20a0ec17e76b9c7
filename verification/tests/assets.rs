use depin_network::assets::{
    register_farm, register_healthcare_provider, register_logistics_partner, register_tax_point,
    register_wifi_hotspot, submit_agriculture_data, submit_healthcare_data, submit_logistics_data,
    submit_taxation_data, submit_wifi_data,
};
use depin_network::errors::DePINError;
use depin_network::registry::initialize;
use depin_network::state::{AccountId, NetworkState, UserProfile};

fn user(id: u64) -> AccountId {
    AccountId { id }
}

fn world() -> (NetworkState, UserProfile) {
    (initialize(user(1), user(2), 0, 9, 0), UserProfile::new(user(10), 0))
}

#[test]
fn register_wifi_hotspot_counts_and_defaults() {
    let (mut registry, mut profile) = world();
    let hotspot = register_wifi_hotspot(
        &mut registry,
        &mut profile,
        user(10),
        b"karachi rooftop".to_vec(),
        500,
        100,
        7,
    )
    .unwrap();
    assert_eq!(hotspot.owner, user(10));
    assert_eq!(hotspot.reputation_score, 100);
    assert!(hotspot.is_active);
    assert_eq!(hotspot.total_data_transferred, 0);
    assert_eq!(registry.wifi_hotspots_count, 1);
    assert_eq!(profile.wifi_hotspots, 1);
    assert_eq!(profile.last_activity, 7);
}

#[test]
fn register_wifi_hotspot_validation() {
    let (mut registry, mut profile) = world();
    let long = register_wifi_hotspot(
        &mut registry,
        &mut profile,
        user(10),
        vec![b'x'; 101],
        500,
        100,
        0,
    );
    assert_eq!(long.unwrap_err(), DePINError::LocationTooLong);
    let radius = register_wifi_hotspot(
        &mut registry,
        &mut profile,
        user(10),
        b"spot".to_vec(),
        5001,
        100,
        0,
    );
    assert_eq!(radius.unwrap_err(), DePINError::InvalidCoverageRadius);
    let bandwidth = register_wifi_hotspot(
        &mut registry,
        &mut profile,
        user(10),
        b"spot".to_vec(),
        500,
        9,
        0,
    );
    assert_eq!(bandwidth.unwrap_err(), DePINError::InvalidBandwidth);
    assert_eq!(registry.wifi_hotspots_count, 0);
    assert_eq!(profile.wifi_hotspots, 0);
}

#[test]
fn register_logistics_partner_checks_each_area() {
    let (mut registry, mut profile) = world();
    let partner = register_logistics_partner(
        &mut registry,
        &mut profile,
        user(10),
        b"swift cargo".to_vec(),
        vec![b"lahore".to_vec(), b"multan".to_vec()],
        25,
        0,
    )
    .unwrap();
    assert_eq!(partner.efficiency_score, 100);
    assert_eq!(registry.logistics_partners_count, 1);
    assert_eq!(profile.logistics_partners, 1);
    let bad_area = register_logistics_partner(
        &mut registry,
        &mut profile,
        user(10),
        b"swift cargo".to_vec(),
        vec![b"ok".to_vec(), vec![b'x'; 31]],
        25,
        0,
    );
    assert_eq!(bad_area.unwrap_err(), DePINError::ServiceAreaTooLong);
    let too_many = register_logistics_partner(
        &mut registry,
        &mut profile,
        user(10),
        b"swift cargo".to_vec(),
        vec![b"a".to_vec(); 11],
        25,
        0,
    );
    assert_eq!(too_many.unwrap_err(), DePINError::TooManyServiceAreas);
    let fleet = register_logistics_partner(
        &mut registry,
        &mut profile,
        user(10),
        b"swift cargo".to_vec(),
        vec![],
        0,
        0,
    );
    assert_eq!(fleet.unwrap_err(), DePINError::InvalidVehicleCount);
}

#[test]
fn register_farm_checks_crops_and_size() {
    let (mut registry, mut profile) = world();
    let farm = register_farm(
        &mut registry,
        &mut profile,
        user(10),
        b"green acres".to_vec(),
        b"punjab".to_vec(),
        120,
        vec![b"wheat".to_vec(), b"cotton".to_vec()],
        0,
    )
    .unwrap();
    assert_eq!(farm.yield_improvement, 0);
    assert_eq!(registry.farms_count, 1);
    assert_eq!(profile.farms, 1);
    let bad_crop = register_farm(
        &mut registry,
        &mut profile,
        user(10),
        b"green acres".to_vec(),
        b"punjab".to_vec(),
        120,
        vec![vec![b'x'; 21]],
        0,
    );
    assert_eq!(bad_crop.unwrap_err(), DePINError::CropNameTooLong);
    let size = register_farm(
        &mut registry,
        &mut profile,
        user(10),
        b"green acres".to_vec(),
        b"punjab".to_vec(),
        10_001,
        vec![],
        0,
    );
    assert_eq!(size.unwrap_err(), DePINError::InvalidFarmSize);
    let crops = register_farm(
        &mut registry,
        &mut profile,
        user(10),
        b"green acres".to_vec(),
        b"punjab".to_vec(),
        120,
        vec![b"wheat".to_vec(); 6],
        0,
    );
    assert_eq!(crops.unwrap_err(), DePINError::TooManyCropTypes);
}

#[test]
fn register_healthcare_and_tax_point() {
    let (mut registry, mut profile) = world();
    let provider = register_healthcare_provider(
        &mut registry,
        &mut profile,
        user(10),
        b"city clinic".to_vec(),
        b"clinic".to_vec(),
        b"lahore".to_vec(),
        b"LIC-1".to_vec(),
        3,
    )
    .unwrap();
    assert_eq!(provider.compliance_score, 100);
    assert_eq!(registry.healthcare_providers_count, 1);
    let point = register_tax_point(
        &mut registry,
        &mut profile,
        user(10),
        b"customs desk".to_vec(),
        b"federal".to_vec(),
        b"karachi".to_vec(),
        b"sindh".to_vec(),
        4,
    )
    .unwrap();
    assert_eq!(point.verification_score, 100);
    assert_eq!(registry.tax_points_count, 1);
    assert_eq!(profile.wifi_hotspots, 0);
    let long_license = register_healthcare_provider(
        &mut registry,
        &mut profile,
        user(10),
        b"city clinic".to_vec(),
        b"clinic".to_vec(),
        b"lahore".to_vec(),
        vec![b'x'; 51],
        5,
    );
    assert_eq!(long_license.unwrap_err(), DePINError::NameTooLong);
}

#[test]
fn wifi_submission_reward_and_reputation() {
    let (mut registry, mut profile) = world();
    registry.wifi_reward_rate = 100;
    let mut hotspot = register_wifi_hotspot(
        &mut registry,
        &mut profile,
        user(10),
        b"spot".to_vec(),
        500,
        100,
        0,
    )
    .unwrap();
    // 10 GB at 100 units per GB, weighted by 96% uptime: 10*100*96/100.
    let reward = submit_wifi_data(&mut hotspot, &mut profile, &registry, 5, 10, 96, 4_000).unwrap();
    assert_eq!(reward, 960);
    assert_eq!(hotspot.total_users_served, 5);
    assert_eq!(hotspot.total_data_transferred, 10);
    assert_eq!(hotspot.total_rewards_earned, 960);
    assert_eq!(hotspot.last_data_submission, 4_000);
    assert_eq!(hotspot.reputation_score, 100);
    assert_eq!(profile.total_earned, 960);
    // A poor uptime lowers the reputation by one.
    let reward = submit_wifi_data(&mut hotspot, &mut profile, &registry, 1, 1, 79, 8_000).unwrap();
    assert_eq!(reward, 79);
    assert_eq!(hotspot.reputation_score, 99);
}

#[test]
fn wifi_submission_validation_and_rate_limit() {
    let (mut registry, mut profile) = world();
    let mut hotspot = register_wifi_hotspot(
        &mut registry,
        &mut profile,
        user(10),
        b"spot".to_vec(),
        500,
        100,
        0,
    )
    .unwrap();
    let uptime = submit_wifi_data(&mut hotspot, &mut profile, &registry, 1, 1, 101, 4_000);
    assert_eq!(uptime.unwrap_err(), DePINError::InvalidUptime);
    let nothing = submit_wifi_data(&mut hotspot, &mut profile, &registry, 1, 0, 50, 4_000);
    assert_eq!(nothing.unwrap_err(), DePINError::NoDataTransferred);
    submit_wifi_data(&mut hotspot, &mut profile, &registry, 1, 1, 50, 4_000).unwrap();
    let too_soon = submit_wifi_data(&mut hotspot, &mut profile, &registry, 1, 1, 50, 7_599);
    assert_eq!(too_soon.unwrap_err(), DePINError::SubmissionTooFrequent);
    let next_hour = submit_wifi_data(&mut hotspot, &mut profile, &registry, 1, 1, 50, 7_600);
    assert!(next_hour.is_ok());
}

#[test]
fn logistics_submission_reward() {
    let (mut registry, mut profile) = world();
    registry.logistics_reward_rate = 50;
    let mut partner = register_logistics_partner(
        &mut registry,
        &mut profile,
        user(10),
        b"swift".to_vec(),
        vec![],
        10,
        0,
    )
    .unwrap();
    // 8 deliveries at 50 units each, weighted by a 90% score.
    let reward =
        submit_logistics_data(&mut partner, &mut profile, &registry, 8, 120, 12, 90, 4_000)
            .unwrap();
    assert_eq!(reward, 360);
    assert_eq!(partner.total_deliveries, 8);
    assert_eq!(partner.total_distance_km, 120);
    assert_eq!(partner.efficiency_score, 100);
    let none = submit_logistics_data(&mut partner, &mut profile, &registry, 0, 1, 1, 50, 8_000);
    assert_eq!(none.unwrap_err(), DePINError::NoDeliveries);
    let low = submit_logistics_data(&mut partner, &mut profile, &registry, 1, 1, 1, 69, 8_000)
        .unwrap();
    assert_eq!(low, 34);
    assert_eq!(partner.efficiency_score, 99);
}

#[test]
fn agriculture_submission_flat_reward_and_ranges() {
    let (mut registry, mut profile) = world();
    registry.agriculture_reward_rate = 25;
    let mut farm = register_farm(
        &mut registry,
        &mut profile,
        user(10),
        b"farm".to_vec(),
        b"loc".to_vec(),
        10,
        vec![],
        0,
    )
    .unwrap();
    let reward =
        submit_agriculture_data(&mut farm, &mut profile, &registry, 55, 30, 60, 7, 4_000).unwrap();
    assert_eq!(reward, 25);
    assert_eq!(farm.total_data_submissions, 1);
    assert_eq!(farm.total_rewards_earned, 25);
    let moisture =
        submit_agriculture_data(&mut farm, &mut profile, &registry, 101, 30, 60, 7, 8_000);
    assert_eq!(moisture.unwrap_err(), DePINError::InvalidMoisture);
    let temperature =
        submit_agriculture_data(&mut farm, &mut profile, &registry, 50, 71, 60, 7, 8_000);
    assert_eq!(temperature.unwrap_err(), DePINError::InvalidTemperature);
    let humidity =
        submit_agriculture_data(&mut farm, &mut profile, &registry, 50, 30, 101, 7, 8_000);
    assert_eq!(humidity.unwrap_err(), DePINError::InvalidHumidity);
    let ph = submit_agriculture_data(&mut farm, &mut profile, &registry, 50, 30, 60, 15, 8_000);
    assert_eq!(ph.unwrap_err(), DePINError::InvalidPH);
}

#[test]
fn healthcare_submission_reward() {
    let (mut registry, mut profile) = world();
    registry.healthcare_reward_rate = 100;
    let mut provider = register_healthcare_provider(
        &mut registry,
        &mut profile,
        user(10),
        b"clinic".to_vec(),
        b"clinic".to_vec(),
        b"loc".to_vec(),
        b"L".to_vec(),
        0,
    )
    .unwrap();
    // 4 records at 100 units each, weighted by a 95% quality score.
    let reward =
        submit_healthcare_data(&mut provider, &mut profile, &registry, 4, 95, 4_000).unwrap();
    assert_eq!(reward, 380);
    assert_eq!(provider.total_data_submissions, 1);
    assert_eq!(provider.total_records_collected, 4);
    assert_eq!(provider.compliance_score, 100);
    let score = submit_healthcare_data(&mut provider, &mut profile, &registry, 4, 101, 8_000);
    assert_eq!(score.unwrap_err(), DePINError::InvalidScore);
    let none = submit_healthcare_data(&mut provider, &mut profile, &registry, 0, 50, 8_000);
    assert_eq!(none.unwrap_err(), DePINError::NoDataTransferred);
}

#[test]
fn taxation_submission_reward() {
    let (mut registry, mut profile) = world();
    registry.taxation_reward_rate = 150;
    let mut point = register_tax_point(
        &mut registry,
        &mut profile,
        user(10),
        b"desk".to_vec(),
        b"federal".to_vec(),
        b"loc".to_vec(),
        b"sindh".to_vec(),
        0,
    )
    .unwrap();
    // 2 records at 150 units each, weighted by an 80% verification score.
    let reward =
        submit_taxation_data(&mut point, &mut profile, &registry, 2, 9_999, 80, 4_000).unwrap();
    assert_eq!(reward, 240);
    assert_eq!(point.total_records_submitted, 2);
    assert_eq!(point.total_amount_processed, 9_999);
    assert_eq!(point.verification_score, 100);
    let too_soon = submit_taxation_data(&mut point, &mut profile, &registry, 1, 1, 50, 4_100);
    assert_eq!(too_soon.unwrap_err(), DePINError::SubmissionTooFrequent);
}
