//! Primitive, dependency-free fixed-point and checked integer mathematics.
//!
//! Exact arithmetic: for `d > 0`, `mul_div_floor(a, b, d) = floor(a * b / d)`
//! and `mul_div_ceil(a, b, d) = ceil(a * b / d)`; for every `n`,
//! `isqrt(n)^2 <= n < (isqrt(n) + 1)^2`; for `scale > 0`,
//! `sqrt_floor(value, scale) = floor(sqrt(value * scale))` and
//! `sqrt_ceil(value, scale) = ceil(sqrt(value * scale))`.
//!
//! A positive `scale` is the number of raw units in one mathematical unit.
//! The transcendental functions evaluate `2^x`, `log2(x)`, powers and
//! periodic compounding in fixed point with directed rounding and return
//! one-sided bounds; the `bounds` forms return both sides from one pass.
//! Where the value is exact (whole-unit exponents, exact powers of two, a
//! zero base, rate or elapsed time), and for compounding at a per-period
//! rate beyond `1/256`, the contracts also state, in integers, that the
//! bounds enclose the real value and are ordered.
//! The `exp2` and compounding bounds are ordered for every input, the
//! `log2` bounds at every scale that is a power of ten.
use vstd::prelude::*;

pub mod arith;
pub mod defi;
pub mod enclosure;
mod error;
pub mod kernel;
pub mod laws;

pub use error::{error_code, MathError};

use arith::{is_ceil_sqrt, is_isqrt, pair_results};
use enclosure::{
    compound_encloses, exp2_encloses, lemma_compound_encloses, lemma_exp2_integer_exponent_encloses,
    lemma_log2_exact_power_encloses, log2_encloses, pow_encloses,
};
use kernel::compound::compound_spec;
use kernel::exp2::exp2_spec;
use kernel::log2::{is_exact_log2, log2_spec};
use kernel::pow::{encloses, pow_spec, powi_spec};
use kernel::wide::{mul_div_ceil_result, mul_div_floor_result};

verus! {

/// Returns `floor(a * b / denominator)` exactly.
///
/// The multiplication is evaluated at full width. A zero denominator
/// returns `MathError::DivByZero`, and a quotient wider than `u64` returns
/// `MathError::Overflow`.
pub fn mul_div_floor(a: u64, b: u64, denominator: u64) -> (r: Result<u64, MathError>)
    ensures
        r == mul_div_floor_result(a, b, denominator),
{
    kernel::wide::mul_div_floor(a, b, denominator)
}

/// Returns `ceil(a * b / denominator)` exactly.
///
/// A zero denominator returns `MathError::DivByZero`, and a result wider
/// than `u64` returns `MathError::Overflow`.
pub fn mul_div_ceil(a: u64, b: u64, denominator: u64) -> (r: Result<u64, MathError>)
    ensures
        r == mul_div_ceil_result(a, b, denominator),
{
    kernel::wide::mul_div_ceil(a, b, denominator)
}

/// Returns the exact integer floor of `sqrt(value)`: the result `r`
/// satisfies `r^2 <= value < (r + 1)^2`.
pub fn isqrt(value: u128) -> (r: u128)
    ensures
        is_isqrt(value as int, r as int),
{
    kernel::sqrt::isqrt(value)
}

/// Returns `floor(sqrt(value * scale))` exactly; a zero scale returns
/// `MathError::DivByZero`.
pub fn sqrt_floor(value: u64, scale: u64) -> (r: Result<u64, MathError>)
    ensures
        scale == 0 ==> r == Err::<u64, MathError>(MathError::DivByZero),
        scale != 0 ==> (r matches Ok(root) && is_isqrt(value * scale, root as int)),
{
    kernel::sqrt::sqrt_floor(value, scale)
}

/// Returns `ceil(sqrt(value * scale))` exactly; a zero scale returns
/// `MathError::DivByZero`.
pub fn sqrt_ceil(value: u64, scale: u64) -> (r: Result<u64, MathError>)
    ensures
        scale == 0 ==> r == Err::<u64, MathError>(MathError::DivByZero),
        scale != 0 ==> (r matches Ok(root) && is_ceil_sqrt(value * scale, root as int)),
{
    kernel::sqrt::sqrt_ceil(value, scale)
}

/// Returns a lower fixed-point bound for `2^(exponent / scale)`; a zero
/// scale returns `MathError::DivByZero` and a bound beyond a word
/// `MathError::Overflow`.
pub fn exp2_lower(exponent: i64, scale: u64) -> (r: Result<u64, MathError>)
    ensures
        r == exp2_spec(exponent as int, scale as int, false),
        scale == 0 ==> r == Err::<u64, MathError>(MathError::DivByZero),
        scale != 0 && (exponent as int) % (scale as int) == 0 ==> (r matches Ok(bound) ==> exp2_encloses(
            bound as int,
            exponent as int,
            scale as int,
            false,
        )),
{
    proof {
        if scale != 0 && (exponent as int) % (scale as int) == 0 {
            lemma_exp2_integer_exponent_encloses(exponent, scale, false);
        }
    }
    kernel::exp2::exp2_lower(exponent, scale)
}

/// Returns an upper fixed-point bound for `2^(exponent / scale)`.
pub fn exp2_upper(exponent: i64, scale: u64) -> (r: Result<u64, MathError>)
    ensures
        r == exp2_spec(exponent as int, scale as int, true),
        scale == 0 ==> r == Err::<u64, MathError>(MathError::DivByZero),
        scale != 0 && (exponent as int) % (scale as int) == 0 ==> (r matches Ok(bound) ==> exp2_encloses(
            bound as int,
            exponent as int,
            scale as int,
            true,
        )),
{
    proof {
        if scale != 0 && (exponent as int) % (scale as int) == 0 {
            lemma_exp2_integer_exponent_encloses(exponent, scale, true);
        }
    }
    kernel::exp2::exp2_upper(exponent, scale)
}

/// Returns both fixed-point bounds of `2^(exponent / scale)` in one pass:
/// exactly `(exp2_lower, exp2_upper)`.
pub fn exp2_bounds(exponent: i64, scale: u64) -> (r: Result<(u64, u64), MathError>)
    ensures
        r == pair_results(exp2_spec(exponent as int, scale as int, false), exp2_spec(exponent as int, scale as int, true)),
        scale != 0 && (exponent as int) % (scale as int) == 0 ==> (r matches Ok((lower, upper)) ==> exp2_encloses(
            lower as int,
            exponent as int,
            scale as int,
            false,
        ) && exp2_encloses(upper as int, exponent as int, scale as int, true)),
        r matches Ok((lower, upper)) ==> lower <= upper,
{
    proof {
        enclosure::exp2_order::lemma_exp2_ordered(exponent as int, scale as int);
        if scale != 0 && (exponent as int) % (scale as int) == 0 {
            lemma_exp2_integer_exponent_encloses(exponent, scale, false);
            lemma_exp2_integer_exponent_encloses(exponent, scale, true);
        }
    }
    kernel::exp2::exp2_bounds(exponent, scale)
}

/// Returns a lower fixed-point bound for `log2(value / scale)`; a zero
/// scale returns `MathError::DivByZero`, a zero value
/// `MathError::OutOfDomain`.
pub fn log2_lower(value: u64, scale: u64) -> (r: Result<i64, MathError>)
    ensures
        r == log2_spec(value as int, scale as int, false),
        scale == 0 ==> r == Err::<i64, MathError>(MathError::DivByZero),
        scale != 0 && value == 0 ==> r == Err::<i64, MathError>(MathError::OutOfDomain),
        (exists|j: int| #[trigger] is_exact_log2(value as int, scale as int, j)) ==> (r matches Ok(bound) ==> log2_encloses(
            bound as int,
            value as int,
            scale as int,
            false,
        )),
{
    proof {
        reveal(kernel::log2::log2_q_spec);
        if value > 0 && scale > 0 {
            lemma_log2_exact_power_encloses(value, scale, false);
        }
    }
    kernel::log2::log2_lower(value, scale)
}

/// Returns an upper fixed-point bound for `log2(value / scale)`.
pub fn log2_upper(value: u64, scale: u64) -> (r: Result<i64, MathError>)
    ensures
        r == log2_spec(value as int, scale as int, true),
        scale == 0 ==> r == Err::<i64, MathError>(MathError::DivByZero),
        scale != 0 && value == 0 ==> r == Err::<i64, MathError>(MathError::OutOfDomain),
        (exists|j: int| #[trigger] is_exact_log2(value as int, scale as int, j)) ==> (r matches Ok(bound) ==> log2_encloses(
            bound as int,
            value as int,
            scale as int,
            true,
        )),
{
    proof {
        reveal(kernel::log2::log2_q_spec);
        if value > 0 && scale > 0 {
            lemma_log2_exact_power_encloses(value, scale, true);
        }
    }
    kernel::log2::log2_upper(value, scale)
}

/// Returns both fixed-point bounds of `log2(value / scale)` in one pass:
/// exactly `(log2_lower, log2_upper)`.
pub fn log2_bounds(value: u64, scale: u64) -> (r: Result<(i64, i64), MathError>)
    ensures
        r == pair_results(log2_spec(value as int, scale as int, false), log2_spec(value as int, scale as int, true)),
        (exists|j: int| #[trigger] is_exact_log2(value as int, scale as int, j)) ==> (r matches Ok((lower, upper)) ==> log2_encloses(
            lower as int,
            value as int,
            scale as int,
            false,
        ) && log2_encloses(upper as int, value as int, scale as int, true) && lower <= upper),
        (exists|p: int| #[trigger] kernel::wide::is_decimal_power(scale as int, p)) ==> (r matches Ok((lower, upper)) ==> lower
            <= upper),
{
    let r = kernel::log2::log2_bounds(value, scale);
    proof {
        if exists|p: int| #[trigger] kernel::wide::is_decimal_power(scale as int, p) {
            enclosure::log2_order::lemma_log2_decimal_ordered(value, scale);
        }
        if value > 0 && scale > 0 {
            lemma_log2_exact_power_encloses(value, scale, false);
            lemma_log2_exact_power_encloses(value, scale, true);
        } else {
            reveal(kernel::log2::log2_q_spec);
        }
    }
    r
}

/// Returns a lower fixed-point bound for `(base / scale)^(exponent / scale)`.
pub fn pow_lower(base: u64, exponent: u64, scale: u64) -> (r: Result<u64, MathError>)
    ensures
        r == pow_spec(base, exponent, scale, false),
        scale != 0 && (exponent % scale == 0 || base == 0) ==> (r matches Ok(bound) ==> pow_encloses(
            bound as int,
            base as int,
            exponent as int,
            scale as int,
            false,
        )),
{
    kernel::pow::pow_lower(base, exponent, scale)
}

/// Returns an upper fixed-point bound for `(base / scale)^(exponent / scale)`.
pub fn pow_upper(base: u64, exponent: u64, scale: u64) -> (r: Result<u64, MathError>)
    ensures
        r == pow_spec(base, exponent, scale, true),
        scale != 0 && (exponent % scale == 0 || base == 0) ==> (r matches Ok(bound) ==> pow_encloses(
            bound as int,
            base as int,
            exponent as int,
            scale as int,
            true,
        )),
{
    kernel::pow::pow_upper(base, exponent, scale)
}

/// Returns both fixed-point bounds of `(base / scale)^(exponent / scale)`
/// in one pass: exactly `(pow_lower, pow_upper)`.
pub fn pow_bounds(base: u64, exponent: u64, scale: u64) -> (r: Result<(u64, u64), MathError>)
    ensures
        r == pair_results(pow_spec(base, exponent, scale, false), pow_spec(base, exponent, scale, true)),
        scale != 0 && (exponent % scale == 0 || base == 0) ==> (r matches Ok((lower, upper)) ==> pow_encloses(
            lower as int,
            base as int,
            exponent as int,
            scale as int,
            false,
        ) && pow_encloses(upper as int, base as int, exponent as int, scale as int, true) && lower <= upper),
{
    kernel::pow::pow_bounds(base, exponent, scale)
}

/// Returns a lower fixed-point bound for `(base / scale)^exponent`: the
/// result `lower` satisfies `lower * scale^exponent <= scale * base^exponent`.
pub fn powi_lower(base: u64, exponent: u64, scale: u64) -> (r: Result<u64, MathError>)
    ensures
        r == powi_spec(base, exponent, scale, false),
        r matches Ok(lower) ==> encloses(lower as int, base as int, exponent as nat, scale as int, false),
{
    kernel::pow::powi_lower(base, exponent, scale)
}

/// Returns an upper fixed-point bound for `(base / scale)^exponent`: the
/// result `upper` satisfies `upper * scale^exponent >= scale * base^exponent`.
pub fn powi_upper(base: u64, exponent: u64, scale: u64) -> (r: Result<u64, MathError>)
    ensures
        r == powi_spec(base, exponent, scale, true),
        r matches Ok(upper) ==> encloses(upper as int, base as int, exponent as nat, scale as int, true),
{
    kernel::pow::powi_upper(base, exponent, scale)
}

/// Returns a lower bound for periodic compounding
/// `(1 + (annual_rate / scale) / periods_per_year)^elapsed_periods`.
pub fn compound_lower(annual_rate: u64, periods_per_year: u64, elapsed_periods: u64, scale: u64) -> (r: Result<u64, MathError>)
    ensures
        r == compound_spec(annual_rate, periods_per_year, elapsed_periods, scale, false),
        elapsed_periods == 0 || annual_rate == 0 || annual_rate * 256 > periods_per_year * scale ==> (r matches Ok(bound) ==> compound_encloses(
            bound as int,
            annual_rate as int,
            periods_per_year as int,
            elapsed_periods as int,
            scale as int,
            false,
        )),
{
    proof {
        if elapsed_periods == 0 || annual_rate == 0 || annual_rate * 256 > periods_per_year * scale {
            lemma_compound_encloses(annual_rate, periods_per_year, elapsed_periods, scale, false);
        }
    }
    kernel::compound::compound_lower(annual_rate, periods_per_year, elapsed_periods, scale)
}

/// Returns an upper bound for periodic compounding.
pub fn compound_upper(annual_rate: u64, periods_per_year: u64, elapsed_periods: u64, scale: u64) -> (r: Result<u64, MathError>)
    ensures
        r == compound_spec(annual_rate, periods_per_year, elapsed_periods, scale, true),
        elapsed_periods == 0 || annual_rate == 0 || annual_rate * 256 > periods_per_year * scale ==> (r matches Ok(bound) ==> compound_encloses(
            bound as int,
            annual_rate as int,
            periods_per_year as int,
            elapsed_periods as int,
            scale as int,
            true,
        )),
{
    proof {
        if elapsed_periods == 0 || annual_rate == 0 || annual_rate * 256 > periods_per_year * scale {
            lemma_compound_encloses(annual_rate, periods_per_year, elapsed_periods, scale, true);
        }
    }
    kernel::compound::compound_upper(annual_rate, periods_per_year, elapsed_periods, scale)
}

/// Returns both bounds for periodic compounding in one pass: exactly
/// `(compound_lower, compound_upper)`.
pub fn compound_bounds(annual_rate: u64, periods_per_year: u64, elapsed_periods: u64, scale: u64) -> (r: Result<(u64, u64), MathError>)
    ensures
        r == pair_results(
            compound_spec(annual_rate, periods_per_year, elapsed_periods, scale, false),
            compound_spec(annual_rate, periods_per_year, elapsed_periods, scale, true),
        ),
        elapsed_periods == 0 || annual_rate == 0 || annual_rate * 256 > periods_per_year * scale ==> (r matches Ok((lower, upper)) ==> compound_encloses(
            lower as int,
            annual_rate as int,
            periods_per_year as int,
            elapsed_periods as int,
            scale as int,
            false,
        ) && compound_encloses(upper as int, annual_rate as int, periods_per_year as int, elapsed_periods as int, scale as int, true)),
        r matches Ok((lower, upper)) ==> lower <= upper,
{
    proof {
        enclosure::compound_order::lemma_compound_ordered(annual_rate, periods_per_year, elapsed_periods, scale);
        if elapsed_periods == 0 || annual_rate == 0 || annual_rate * 256 > periods_per_year * scale {
            lemma_compound_encloses(annual_rate, periods_per_year, elapsed_periods, scale, false);
            lemma_compound_encloses(annual_rate, periods_per_year, elapsed_periods, scale, true);
        }
    }
    kernel::compound::compound_bounds(annual_rate, periods_per_year, elapsed_periods, scale)
}

} // verus!
