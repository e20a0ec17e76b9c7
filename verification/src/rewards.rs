//! The reward accrual engine: pure integer computation of staking accrual
//! and submission-based rewards, plus the small performance-score helpers
//! shared by the asset modules.
//!
//! Staking accrual first converts the annual rate in basis points to a
//! per-second rate by integer division, then multiplies by principal and
//! elapsed seconds and divides by the unit scale. Every step truncates
//! toward zero, so small positions over short windows may accrue nothing;
//! this quantization is deliberate and must not be smoothed over.

use vstd::prelude::*;
use crate::constants::{APY_SECONDS_DIVISOR, UNIT_SCALE};
use crate::errors::DePINError;

verus! {

/// The annual rate in basis points as a truncated per-second rate.
pub open spec fn spec_per_second_rate(apy_basis_points: u64) -> int {
    apy_basis_points as int / APY_SECONDS_DIVISOR as int
}

/// Staking accrual over an elapsed interval. A negative elapsed duration
/// (the clock moved backwards) and any overflowing intermediate product
/// are rejected as arithmetic errors; otherwise the truncated reward
/// `amount * per_second_rate * elapsed / UNIT_SCALE`.
pub open spec fn spec_staking_rewards(
    staked_amount: u64,
    apy_basis_points: u64,
    time_staked_seconds: i64,
) -> Result<u64, DePINError> {
    if time_staked_seconds < 0 {
        Err(DePINError::ArithmeticOverflow)
    } else {
        let product = staked_amount * spec_per_second_rate(apy_basis_points);
        if product > u64::MAX {
            Err(DePINError::ArithmeticOverflow)
        } else {
            let scaled = product * time_staked_seconds;
            if scaled > u64::MAX {
                Err(DePINError::ArithmeticOverflow)
            } else {
                Ok((scaled / UNIT_SCALE as int) as u64)
            }
        }
    }
}

/// Submission reward: `metric_count * category_rate * multiplier / 100`,
/// truncated, with overflow of either product rejected.
pub open spec fn spec_submission_reward(
    metric_count: u64,
    category_rate: u64,
    multiplier: u64,
) -> Result<u64, DePINError> {
    let base = metric_count * category_rate;
    if base > u64::MAX {
        Err(DePINError::ArithmeticOverflow)
    } else {
        let weighted = base * multiplier;
        if weighted > u64::MAX {
            Err(DePINError::ArithmeticOverflow)
        } else {
            Ok((weighted / 100) as u64)
        }
    }
}

/// Convert an annual rate in basis points to a per-second rate by integer
/// division. For most realistic rates this truncates to zero: see the
/// module note.
pub fn apy_to_per_second_rate(apy_basis_points: u64) -> (r: u64)
    ensures
        r == spec_per_second_rate(apy_basis_points),
{
    apy_basis_points / APY_SECONDS_DIVISOR
}

/// Reward accrued by `staked_amount` at `apy_basis_points` over
/// `time_staked_seconds`, with truncate-toward-zero integer semantics.
pub fn calculate_staking_rewards(
    staked_amount: u64,
    apy_basis_points: u64,
    time_staked_seconds: i64,
) -> (r: Result<u64, DePINError>)
    ensures
        r == spec_staking_rewards(staked_amount, apy_basis_points, time_staked_seconds),
{
    if time_staked_seconds < 0 {
        return Err(DePINError::ArithmeticOverflow);
    }
    let rate = apy_basis_points / APY_SECONDS_DIVISOR;
    let product = match staked_amount.checked_mul(rate) {
        Some(p) => p,
        None => {
            return Err(DePINError::ArithmeticOverflow);
        },
    };
    let scaled = match product.checked_mul(time_staked_seconds as u64) {
        Some(p) => p,
        None => {
            return Err(DePINError::ArithmeticOverflow);
        },
    };
    Ok(scaled / UNIT_SCALE)
}

/// Reward for one data submission: `metric_count` units at the category's
/// rate, weighted by a percentage multiplier and truncated.
pub fn calculate_submission_reward(
    metric_count: u64,
    category_rate: u64,
    multiplier: u64,
) -> (r: Result<u64, DePINError>)
    ensures
        r == spec_submission_reward(metric_count, category_rate, multiplier),
{
    let base = match metric_count.checked_mul(category_rate) {
        Some(b) => b,
        None => {
            return Err(DePINError::ArithmeticOverflow);
        },
    };
    let weighted = match base.checked_mul(multiplier) {
        Some(w) => w,
        None => {
            return Err(DePINError::ArithmeticOverflow);
        },
    };
    Ok(weighted / 100)
}

/// Percentage multiplier for a performance score: a 20% bonus at or above
/// the excellent threshold, the standard rate at or above the poor
/// threshold, and a 20% penalty below it.
pub fn calculate_performance_multiplier(score: u8, excellent_threshold: u8, poor_threshold: u8) -> (r:
    u64)
    ensures
        score >= excellent_threshold ==> r == 120,
        score < excellent_threshold && score >= poor_threshold ==> r == 100,
        score < poor_threshold && score < excellent_threshold ==> r == 80,
{
    if score >= excellent_threshold {
        120
    } else if score >= poor_threshold {
        100
    } else {
        80
    }
}

/// New reputation score after one performance report: up one point (capped
/// at 100) for an excellent score, down two (floored at zero) for a poor
/// one, unchanged in between.
pub fn update_reputation_score(
    current_score: u8,
    performance_score: u8,
    excellent_threshold: u8,
    poor_threshold: u8,
) -> (r: u8)
    ensures
        performance_score >= excellent_threshold ==> r == if current_score >= 100 {
            100int
        } else {
            current_score + 1
        },
        performance_score < excellent_threshold && performance_score >= poor_threshold ==> r
            == current_score,
        performance_score < poor_threshold && performance_score < excellent_threshold ==> r == if
            current_score >= 2 {
            current_score - 2
        } else {
            0int
        },
{
    if performance_score >= excellent_threshold {
        if current_score >= 100 {
            100
        } else {
            current_score + 1
        }
    } else if performance_score < poor_threshold {
        if current_score >= 2 {
            current_score - 2
        } else {
            0
        }
    } else {
        current_score
    }
}

/// Whether `timestamp` lies within `period_seconds` of the current time.
pub fn is_within_period(now: i64, timestamp: i64, period_seconds: i64) -> (r: bool)
    requires
        i64::MIN <= now - timestamp <= i64::MAX,
    ensures
        r == (now - timestamp <= period_seconds),
{
    now - timestamp <= period_seconds
}

/// All four agricultural sensor readings within their physical ranges.
pub fn validate_sensor_data(soil_moisture: u8, temperature: i16, humidity: u8, ph_level: u8) -> (r:
    bool)
    ensures
        r == (soil_moisture <= 100 && -50 <= temperature <= 70 && humidity <= 100 && ph_level
            <= 14),
{
    soil_moisture <= 100 && temperature >= -50 && temperature <= 70 && humidity <= 100 && ph_level
        <= 14
}

/// Reject a byte string longer than its field's hard maximum.
pub fn validate_string_length(s: &Vec<u8>, max_len: usize) -> (r: Result<(), DePINError>)
    ensures
        r is Ok <==> s@.len() <= max_len,
        r is Err ==> r == Err::<(), DePINError>(DePINError::InvalidAccountData),
{
    if s.len() <= max_len {
        Ok(())
    } else {
        Err(DePINError::InvalidAccountData)
    }
}

} // verus!
