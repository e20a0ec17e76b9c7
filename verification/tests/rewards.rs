use depin_network::errors::DePINError;
use depin_network::rewards::{
    apy_to_per_second_rate, calculate_performance_multiplier, calculate_staking_rewards,
    calculate_submission_reward, is_within_period, update_reputation_score, validate_sensor_data,
    validate_string_length,
};

const SECONDS_PER_YEAR_BPS: u64 = 365 * 24 * 3600 * 100;

#[test]
fn per_second_rate_truncates() {
    assert_eq!(apy_to_per_second_rate(1200), 0);
    assert_eq!(apy_to_per_second_rate(SECONDS_PER_YEAR_BPS - 1), 0);
    assert_eq!(apy_to_per_second_rate(SECONDS_PER_YEAR_BPS), 1);
    assert_eq!(apy_to_per_second_rate(3 * SECONDS_PER_YEAR_BPS + 5), 3);
}

#[test]
fn staking_rewards_exact_values() {
    // rate 2 units per second per scaled token; ten million staked units
    // over a million seconds: 10^7 * 2 * 10^6 / 10^9 = 20000.
    assert_eq!(
        calculate_staking_rewards(10_000_000, 2 * SECONDS_PER_YEAR_BPS, 1_000_000),
        Ok(20_000)
    );
    // The thirty-day example: 500 tokens at 1200 basis points truncate
    // to nothing.
    assert_eq!(calculate_staking_rewards(500_000_000_000, 1200, 2_592_000), Ok(0));
    assert_eq!(calculate_staking_rewards(0, SECONDS_PER_YEAR_BPS, 1_000), Ok(0));
}

#[test]
fn staking_rewards_reject_negative_duration() {
    assert_eq!(
        calculate_staking_rewards(1_000, SECONDS_PER_YEAR_BPS, -1),
        Err(DePINError::ArithmeticOverflow)
    );
}

#[test]
fn staking_rewards_reject_overflow() {
    assert_eq!(
        calculate_staking_rewards(u64::MAX, 2 * SECONDS_PER_YEAR_BPS, 1),
        Err(DePINError::ArithmeticOverflow)
    );
    assert_eq!(
        calculate_staking_rewards(u64::MAX / 2, 2 * SECONDS_PER_YEAR_BPS, i64::MAX),
        Err(DePINError::ArithmeticOverflow)
    );
}

#[test]
fn submission_reward_exact_values() {
    // 10 gigabytes at 100 units each with a 120% multiplier.
    assert_eq!(calculate_submission_reward(10, 100, 120), Ok(1_200));
    // Truncation: 3 * 3 * 33 / 100 = 2.97 rounds down.
    assert_eq!(calculate_submission_reward(3, 3, 33), Ok(2));
    assert_eq!(calculate_submission_reward(0, 100, 120), Ok(0));
}

#[test]
fn submission_reward_rejects_overflow() {
    assert_eq!(
        calculate_submission_reward(u64::MAX, 2, 100),
        Err(DePINError::ArithmeticOverflow)
    );
    assert_eq!(
        calculate_submission_reward(u64::MAX / 50, 50, 110),
        Err(DePINError::ArithmeticOverflow)
    );
}

#[test]
fn performance_multiplier_bands() {
    assert_eq!(calculate_performance_multiplier(95, 95, 80), 120);
    assert_eq!(calculate_performance_multiplier(94, 95, 80), 100);
    assert_eq!(calculate_performance_multiplier(80, 95, 80), 100);
    assert_eq!(calculate_performance_multiplier(79, 95, 80), 80);
}

#[test]
fn reputation_moves_up_and_down_within_bounds() {
    assert_eq!(update_reputation_score(50, 96, 95, 80), 51);
    assert_eq!(update_reputation_score(100, 96, 95, 80), 100);
    assert_eq!(update_reputation_score(50, 90, 95, 80), 50);
    assert_eq!(update_reputation_score(50, 79, 95, 80), 48);
    assert_eq!(update_reputation_score(1, 79, 95, 80), 0);
    assert_eq!(update_reputation_score(0, 79, 95, 80), 0);
}

#[test]
fn within_period_boundaries() {
    assert!(is_within_period(1_000, 900, 100));
    assert!(!is_within_period(1_001, 900, 100));
    assert!(is_within_period(900, 1_000, 0));
}

#[test]
fn sensor_ranges() {
    assert!(validate_sensor_data(100, 70, 100, 14));
    assert!(validate_sensor_data(0, -50, 0, 0));
    assert!(!validate_sensor_data(101, 20, 50, 7));
    assert!(!validate_sensor_data(50, 71, 50, 7));
    assert!(!validate_sensor_data(50, -51, 50, 7));
    assert!(!validate_sensor_data(50, 20, 101, 7));
    assert!(!validate_sensor_data(50, 20, 50, 15));
}

#[test]
fn string_length_gate() {
    assert!(validate_string_length(&vec![b'x'; 10], 10).is_ok());
    assert_eq!(
        validate_string_length(&vec![b'x'; 11], 10),
        Err(DePINError::InvalidAccountData)
    );
}
