//! Lending calculations.
use crate::arith::{ceil_div, lemma_div_le, lemma_div_mod, lemma_div_unique, lemma_mul_le};
use crate::defi::fee::BPS_SCALE;
use crate::error::MathError;
use crate::kernel::wide::{mul_div_ceil, mul_div_floor};
use vstd::prelude::*;

verus! {

/// The outcome of a utilization query: `floor(borrowed * 10^4 / supplied)`.
pub open spec fn utilization_result(borrowed: u64, supplied: u64) -> Result<u64, MathError> {
    if supplied == 0 {
        if borrowed == 0 {
            Ok(0)
        } else {
            Err(MathError::DivByZero)
        }
    } else if borrowed > supplied {
        Err(MathError::OutOfDomain)
    } else {
        Ok(((borrowed * BPS_SCALE) / (supplied as int)) as u64)
    }
}

/// Returns utilization in basis points, floored.
///
/// An empty market has zero utilization. Nonzero borrowing with zero supply
/// is undefined and returns `MathError::DivByZero`; borrowing above supply
/// is `MathError::OutOfDomain`.
pub fn utilization_bps(borrowed: u64, supplied: u64) -> (r: Result<u64, MathError>)
    ensures
        r == utilization_result(borrowed, supplied),
        r matches Ok(u) ==> u <= BPS_SCALE,
{
    if supplied == 0 {
        return if borrowed == 0 {
            Ok(0)
        } else {
            Err(MathError::DivByZero)
        };
    }
    if borrowed > supplied {
        return Err(MathError::OutOfDomain);
    }
    proof {
        lemma_ratio_bounded(borrowed as int, BPS_SCALE as int, supplied as int);
    }
    mul_div_floor(borrowed, BPS_SCALE, supplied)
}

/// `ceil(b * a / d)` and `floor(b * a / d)` stay within `b` when `a <= d`.
proof fn lemma_ratio_bounded(a: int, b: int, d: int)
    requires
        0 <= a <= d,
        b >= 0,
        d > 0,
    ensures
        (b * a) / d <= b,
        0 <= ceil_div(b * a, d) <= b,
{
    lemma_mul_le(b, a, b, d);
    lemma_div_le(b * a, b * d, d);
    assert(b * d == b * d + 0);
    lemma_div_unique(b * d, d, b, 0);
    lemma_div_mod(b * a, d);
    if (b * a) % d != 0 && (b * a) / d == b {
        assert(b * a == b * d + (b * a) % d);
        assert(b * a > b * d);
    }
}

/// The outcome of the two-leg kinked borrow rate, rounded up.
pub open spec fn borrow_rate_result(
    utilization_bps: u64,
    base_bps: u64,
    slope_before_kink_bps: u64,
    slope_after_kink_bps: u64,
    kink_bps: u64,
) -> Result<u64, MathError> {
    if utilization_bps > BPS_SCALE || kink_bps == 0 || kink_bps >= BPS_SCALE {
        Err(MathError::OutOfDomain)
    } else {
        let variable = if utilization_bps <= kink_bps {
            ceil_div(slope_before_kink_bps * utilization_bps, kink_bps as int)
        } else {
            slope_before_kink_bps + ceil_div(
                slope_after_kink_bps * (utilization_bps - kink_bps),
                BPS_SCALE - kink_bps,
            )
        };
        if variable > u64::MAX || base_bps + variable > u64::MAX {
            Err(MathError::Overflow)
        } else {
            Ok((base_bps + variable) as u64)
        }
    }
}

/// Returns the upward-rounded two-leg borrow rate in basis points.
///
/// The rate never undercuts the base and never exceeds the base plus both
/// slopes.
pub fn borrow_rate_bps(
    utilization_bps: u64,
    base_bps: u64,
    slope_before_kink_bps: u64,
    slope_after_kink_bps: u64,
    kink_bps: u64,
) -> (r: Result<u64, MathError>)
    ensures
        r == borrow_rate_result(utilization_bps, base_bps, slope_before_kink_bps, slope_after_kink_bps, kink_bps),
        r matches Ok(rate) ==> base_bps <= rate <= base_bps + slope_before_kink_bps + slope_after_kink_bps,
{
    if utilization_bps > BPS_SCALE || kink_bps == 0 || kink_bps >= BPS_SCALE {
        return Err(MathError::OutOfDomain);
    }
    let variable = if utilization_bps <= kink_bps {
        proof {
            lemma_ratio_bounded(utilization_bps as int, slope_before_kink_bps as int, kink_bps as int);
        }
        match mul_div_ceil(slope_before_kink_bps, utilization_bps, kink_bps) {
            Ok(variable) => variable,
            Err(error) => return Err(error),
        }
    } else {
        proof {
            lemma_ratio_bounded(
                (utilization_bps - kink_bps) as int,
                slope_after_kink_bps as int,
                (BPS_SCALE - kink_bps) as int,
            );
        }
        let after_kink = match mul_div_ceil(
            slope_after_kink_bps,
            utilization_bps - kink_bps,
            BPS_SCALE - kink_bps,
        ) {
            Ok(after_kink) => after_kink,
            Err(error) => return Err(error),
        };
        match slope_before_kink_bps.checked_add(after_kink) {
            Some(variable) => variable,
            None => return Err(MathError::Overflow),
        }
    };
    match base_bps.checked_add(variable) {
        Some(rate) => Ok(rate),
        None => Err(MathError::Overflow),
    }
}

} // verus!
