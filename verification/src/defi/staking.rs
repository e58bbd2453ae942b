//! Staking reward calculations.
use crate::error::MathError;
use crate::kernel::wide::{ceil_from_quotient_remainder, mul_div, mul_div_ceil, mul_div_floor, mul_div_ceil_result, mul_div_floor_result};
use vstd::prelude::*;

verus! {

fn require_scale(scale: u64) -> (r: Result<(), MathError>)
    ensures
        scale == 0 ==> r == Err::<(), MathError>(MathError::DivByZero),
        scale != 0 ==> r == Ok::<(), MathError>(()),
{
    if scale == 0 {
        Err(MathError::DivByZero)
    } else {
        Ok(())
    }
}

/// The outcome of accruing the lower endpoint of a scaled reward index.
pub open spec fn accrue_lower_result(index_lower: u64, reward: u64, total_staked: u64, scale: u64) -> Result<u64, MathError> {
    if scale == 0 {
        Err(MathError::DivByZero)
    } else if total_staked == 0 {
        Ok(index_lower)
    } else {
        match mul_div_floor_result(reward, scale, total_staked) {
            Err(error) => Err(error),
            Ok(delta) => if index_lower + delta > u64::MAX {
                Err(MathError::Overflow)
            } else {
                Ok((index_lower + delta) as u64)
            },
        }
    }
}

/// The outcome of accruing the upper endpoint of a scaled reward index.
pub open spec fn accrue_upper_result(index_upper: u64, reward: u64, total_staked: u64, scale: u64) -> Result<u64, MathError> {
    if scale == 0 {
        Err(MathError::DivByZero)
    } else if total_staked == 0 {
        Ok(index_upper)
    } else {
        match mul_div_ceil_result(reward, scale, total_staked) {
            Err(error) => Err(error),
            Ok(delta) => if index_upper + delta > u64::MAX {
                Err(MathError::Overflow)
            } else {
                Ok((index_upper + delta) as u64)
            },
        }
    }
}

/// Accrues the lower endpoint of a scaled reward index: the index plus
/// `floor(reward * scale / total_staked)`. An empty stake leaves it unmoved.
pub fn reward_index_accrue_lower(index_lower: u64, reward: u64, total_staked: u64, scale: u64) -> (r: Result<u64, MathError>)
    ensures
        r == accrue_lower_result(index_lower, reward, total_staked, scale),
        r matches Ok(index) ==> index >= index_lower,
{
    match require_scale(scale) {
        Ok(()) => {},
        Err(error) => return Err(error),
    }
    if total_staked == 0 {
        return Ok(index_lower);
    }
    let delta = match mul_div_floor(reward, scale, total_staked) {
        Ok(delta) => delta,
        Err(error) => return Err(error),
    };
    match index_lower.checked_add(delta) {
        Some(index) => Ok(index),
        None => Err(MathError::Overflow),
    }
}

/// Accrues the upper endpoint of a scaled reward index: the index plus
/// `ceil(reward * scale / total_staked)`. An empty stake leaves it unmoved.
pub fn reward_index_accrue_upper(index_upper: u64, reward: u64, total_staked: u64, scale: u64) -> (r: Result<u64, MathError>)
    ensures
        r == accrue_upper_result(index_upper, reward, total_staked, scale),
        r matches Ok(index) ==> index >= index_upper,
{
    match require_scale(scale) {
        Ok(()) => {},
        Err(error) => return Err(error),
    }
    if total_staked == 0 {
        return Ok(index_upper);
    }
    let delta = match mul_div_ceil(reward, scale, total_staked) {
        Ok(delta) => delta,
        Err(error) => return Err(error),
    };
    match index_upper.checked_add(delta) {
        Some(index) => Ok(index),
        None => Err(MathError::Overflow),
    }
}

/// Accrues both endpoints of a scaled reward index from one division;
/// exactly `(reward_index_accrue_lower, reward_index_accrue_upper)`, errors
/// included.
pub fn reward_index_accrue(
    index_lower: u64,
    index_upper: u64,
    reward: u64,
    total_staked: u64,
    scale: u64,
) -> (r: Result<(u64, u64), MathError>)
    ensures
        r == (match accrue_lower_result(index_lower, reward, total_staked, scale) {
            Err(error) => Err(error),
            Ok(lower) => match accrue_upper_result(index_upper, reward, total_staked, scale) {
                Err(error) => Err(error),
                Ok(upper) => Ok((lower, upper)),
            },
        }),
{
    match require_scale(scale) {
        Ok(()) => {},
        Err(error) => return Err(error),
    }
    if total_staked == 0 {
        return Ok((index_lower, index_upper));
    }
    let (delta_floor, remainder) = match mul_div(reward, scale, total_staked) {
        Ok(pair) => pair,
        Err(error) => return Err(error),
    };
    let delta_ceil = match ceil_from_quotient_remainder(delta_floor, remainder) {
        Ok(delta) => delta,
        Err(error) => return Err(error),
    };
    let lower = match index_lower.checked_add(delta_floor) {
        Some(lower) => lower,
        None => return Err(MathError::Overflow),
    };
    let upper = match index_upper.checked_add(delta_ceil) {
        Some(upper) => upper,
        None => return Err(MathError::Overflow),
    };
    Ok((lower, upper))
}

/// The outcome of the rewards owed between a snapshot and now.
pub open spec fn rewards_owed_result(staked: u64, index_now_lower: u64, snapshot_upper: u64, scale: u64) -> Result<u64, MathError> {
    if scale == 0 {
        Err(MathError::DivByZero)
    } else {
        mul_div_floor_result(
            staked,
            (if index_now_lower >= snapshot_upper { index_now_lower - snapshot_upper } else { 0 }) as u64,
            scale,
        )
    }
}

/// Returns the floor of rewards owed without paying above the lower index:
/// `floor(staked * max(index_now_lower - snapshot_upper, 0) / scale)`.
pub fn rewards_owed_floor(staked: u64, index_now_lower: u64, snapshot_upper: u64, scale: u64) -> (r: Result<u64, MathError>)
    ensures
        r == rewards_owed_result(staked, index_now_lower, snapshot_upper, scale),
{
    match require_scale(scale) {
        Ok(()) => {},
        Err(error) => return Err(error),
    }
    let delta = index_now_lower.saturating_sub(snapshot_upper);
    mul_div_floor(staked, delta, scale)
}

} // verus!
