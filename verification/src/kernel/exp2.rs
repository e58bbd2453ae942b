//! Certified bounds for `2^x` from a 2048-entry table and a quartic series.
use crate::arith::{directed, pair_results, lemma_directed, lemma_div_le, lemma_div_lt_iff, lemma_div_mod, lemma_div_unique, lemma_mul_le, word};
use crate::error::MathError;
use crate::kernel::scale::{
    lemma_q_is_pow2, project_binary_spec, project_binary_unsigned, scaled_signed_to_q, scaled_signed_to_q_bounds, Q,
};
use crate::kernel::tables::{exp2_lower_at, exp2_lower_entry, exp2_upper_at, exp2_upper_entry};
use crate::kernel::wide::multiply_high;
use vstd::prelude::*;

verus! {

/// `ln(2)` in Q64, rounded down.
pub const LN2_Q64_LOWER: u64 = 0xB172_17F7_D1CF_79AB;

/// `ln(2)` in Q64, rounded up.
pub const LN2_Q64_UPPER: u64 = 0xB172_17F7_D1CF_79AC;

/// `2^53`: the span of one table step of a Q64 fraction.
pub open spec fn table_step() -> int {
    0x20_0000_0000_0000
}

/// The series for `2^r - 1 = e^(r ln 2) - 1` in Q75, with `r` the Q75
/// residual below one table step: the terms through the fourth power,
/// truncated for the lower bound and padded for the upper one.
pub open spec fn exp2_series_spec(residual: int, up: bool) -> int {
    let ln2 = if up { LN2_Q64_UPPER as int } else { LN2_Q64_LOWER as int };
    let y = residual * ln2 / word();
    let y2 = (y * y / word()) / 2048;
    let y3 = (y2 * y / word()) / 2048;
    let y4 = ((y2 / 0x400_0000) * (y2 / 0x400_0000)) / 0x80_0000;
    if up {
        y + (y2 / 2 + 1) + (y3 / 6 + 1) + (y4 / 24 + 2) + 1408
    } else {
        y + y2 / 2 + y3 / 6 + y4 / 24
    }
}

/// The Q63 mantissa `base * (1 + series)` for table entry `index`, with the
/// upper bound padded by two units; a mantissa reaching `2^64` is halved in
/// the promised direction and reports a carry into the exponent.
pub open spec fn exp2_mantissa_spec(index: int, series: int, up: bool) -> (int, bool) {
    let base = if up { exp2_upper_at(index) as int } else { exp2_lower_at(index) as int };
    let total = base + (base * series / word()) / 2048 + (if up { 2int } else { 0 });
    if total >= word() {
        (directed(total, 2, up), true)
    } else {
        (total, false)
    }
}

/// `2^(exponent_q / Q)` as raw units of `scale`: the integer part of the
/// exponent is exact, its fraction splits into an 11-bit table index and a
/// residual evaluated by `exp2_series_spec`, and the binary result is
/// projected with one directed rounding.
#[verifier::opaque]
pub open spec fn exp2_q_spec(exponent_q: int, scale: int, up: bool) -> Result<u64, MathError> {
    let integer = exponent_q / (Q as int);
    let fraction = exponent_q % (Q as int);
    if fraction == 0 {
        project_binary_spec(Q as int, integer, scale, up)
    } else {
        let fraction_q64 = fraction * 8;
        let index = fraction_q64 / table_step();
        let residual = (fraction_q64 % table_step()) * 2048;
        let (mantissa, carry) = exp2_mantissa_spec(index, exp2_series_spec(residual, up), up);
        project_binary_spec(mantissa, integer + (if carry { 1int } else { 0 }) - 2, scale, up)
    }
}

/// The bound of `2^(exponent / scale)` that `exp2_lower` (`up == false`)
/// or `exp2_upper` (`up == true`) returns: the exponent enters Q61 rounded
/// in the promised direction.
pub open spec fn exp2_spec(exponent: int, scale: int, up: bool) -> Result<u64, MathError> {
    if scale == 0 {
        Err(MathError::DivByZero)
    } else {
        exp2_q_spec(directed(exponent * Q, scale, up), scale, up)
    }
}

/// The floor quotient and remainder of a signed Q61 value by `Q`.
fn split_q(value: i128) -> (r: (i128, u64))
    ensures
        r.0 == (value as int) / (Q as int),
        r.1 == (value as int) % (Q as int),
        -0x10_0000_0000_0000_0000 <= r.0 <= 0x10_0000_0000_0000_0000,
{
    proof {
        lemma_q_is_pow2();
    }
    if value >= 0 {
        let magnitude = value as u128;
        proof {
            lemma_div_mod(value as int, Q as int);
            lemma_div_le(value as int, i128::MAX as int, Q as int);
        }
        ((magnitude / 0x2000_0000_0000_0000) as i128, (magnitude % 0x2000_0000_0000_0000) as u64)
    } else {
        let shifted = (-(value + 1)) as u128;
        let quotient = shifted / 0x2000_0000_0000_0000;
        let remainder = shifted % 0x2000_0000_0000_0000;
        proof {
            lemma_div_mod(shifted as int, Q as int);
            lemma_div_le(shifted as int, i128::MAX as int, Q as int);
            lemma_div_unique(value as int, Q as int, -(quotient as int) - 1, Q - 1 - remainder);
        }
        (-(quotient as i128) - 1, (0x1FFF_FFFF_FFFF_FFFF - remainder) as u64)
    }
}

/// The Q75 series of `exp2_series_spec` for a residual below one table
/// step.
fn exp2_series<const UPPER: bool>(residual: u64) -> (r: u64)
    ensures
        r == exp2_series_spec(residual as int, UPPER),
{
    let ln2 = if UPPER { LN2_Q64_UPPER } else { LN2_Q64_LOWER };
    let y = multiply_high(residual, ln2);
    proof {
        lemma_mul_le(residual as int, ln2 as int, u64::MAX as int, LN2_Q64_UPPER as int);
        lemma_div_le(residual * ln2, (u64::MAX as int) * (LN2_Q64_UPPER as int), word());
        assert((u64::MAX as int) * (LN2_Q64_UPPER as int) / word() < LN2_Q64_UPPER);
    }
    let y_square = multiply_high(y, y);
    proof {
        vstd::bits::lemma_u64_shr_is_div(y_square, 11);
    }
    let y2 = y_square >> 11;
    proof {
        vstd::arithmetic::power2::lemma2_to64();
        lemma_mul_le(y as int, y as int, LN2_Q64_UPPER as int, LN2_Q64_UPPER as int);
        lemma_div_le(y * y, (LN2_Q64_UPPER as int) * (LN2_Q64_UPPER as int), word());
        lemma_div_le((y * y) / word(), (LN2_Q64_UPPER as int) * (LN2_Q64_UPPER as int) / word(), 2048);
        lemma_mul_le(y2 as int, y as int, 0x20_0000_0000_0000, LN2_Q64_UPPER as int);
        lemma_div_le(y2 * y, 0x20_0000_0000_0000int * (LN2_Q64_UPPER as int), word());
        lemma_div_le((y2 * y) / word(), 0x20_0000_0000_0000int * (LN2_Q64_UPPER as int) / word(), 2048);
    }
    let y_cube = multiply_high(y2, y);
    proof {
        vstd::bits::lemma_u64_shr_is_div(y_cube, 11);
    }
    let y3 = y_cube >> 11;
    proof {
        vstd::bits::lemma_u64_shr_is_div(y2, 26);
        lemma_mul_le((y2 / 0x400_0000) as int, (y2 / 0x400_0000) as int, 0x800_0000, 0x800_0000);
    }
    let top = y2 >> 26;
    let square = top * top;
    proof {
        vstd::bits::lemma_u64_shr_is_div(square, 23);
        lemma_div_le(square as int, 0x800_0000 * 0x800_0000int, 0x80_0000);
    }
    let y4 = square >> 23;
    if UPPER {
        y + (y2 / 2 + 1) + (y3 / 6 + 1) + (y4 / 24 + 2) + 1_408
    } else {
        y + y2 / 2 + y3 / 6 + y4 / 24
    }
}

/// The mantissa of `exp2_mantissa_spec` for table entry `index`.
fn exp2_mantissa<const UPPER: bool>(index: usize, series: u64) -> (r: (u64, bool))
    requires
        index < 2048,
    ensures
        r.0 == exp2_mantissa_spec(index as int, series as int, UPPER).0,
        r.1 == exp2_mantissa_spec(index as int, series as int, UPPER).1,
{
    let base = if UPPER { exp2_upper_entry(index) } else { exp2_lower_entry(index) };
    let scaled = multiply_high(base, series);
    proof {
        vstd::bits::lemma_u64_shr_is_div(scaled, 11);
        lemma_mul_le(base as int, series as int, u64::MAX as int, u64::MAX as int);
        lemma_div_le(base * series, (u64::MAX as int) * (u64::MAX as int), word());
        vstd::arithmetic::power2::lemma2_to64();
        lemma_div_le((base * series) / word(), u64::MAX as int, 2048);
    }
    let correction = scaled >> 11;
    let pad: u64 = if UPPER { 2 } else { 0 };
    let total = (base as u128) + (correction as u128) + (pad as u128);
    if total >= 0x1_0000_0000_0000_0000 {
        let wrapped = (total - 0x1_0000_0000_0000_0000) as u64;
        proof {
            lemma_div_mod(total as int, 2);
            lemma_div_mod(wrapped as int, 2);
            lemma_directed(total as int, 2);
            vstd::bits::lemma_u64_shr_is_div(wrapped, 1);
            lemma_div_unique(total as int, 2, 0x8000_0000_0000_0000 + (wrapped as int) / 2, (wrapped as int) % 2);
        }
        let halved = 0x8000_0000_0000_0000 + (wrapped >> 1) + if UPPER && wrapped % 2 != 0 { 1 } else { 0 };
        (halved, true)
    } else {
        (total as u64, false)
    }
}

/// `2^(exponent_q / Q)` as raw units of `scale`, rounded up when `UPPER`,
/// as `exp2_q_spec` states it.
pub fn exp2_from_q<const UPPER: bool>(exponent_q: i128, scale: u64) -> (r: Result<u64, MathError>)
    ensures
        r == exp2_q_spec(exponent_q as int, scale as int, UPPER),
{
    proof {
        reveal(exp2_q_spec);
    }
    let (integer, fraction) = split_q(exponent_q);
    if fraction == 0 {
        return project_binary_unsigned::<UPPER>(Q, integer, scale);
    }
    proof {
        lemma_q_is_pow2();
        vstd::arithmetic::power2::lemma2_to64();
        vstd::bits::lemma_u64_shl_is_mul(fraction, 3);
    }
    let fraction_q64 = fraction << 3;
    proof {
        vstd::bits::lemma_u64_shr_is_div(fraction_q64, 53);
        vstd::arithmetic::power2::lemma2_to64_rest();
        lemma_div_lt_iff(fraction_q64 as int, table_step(), 2048);
        lemma_div_mod(fraction_q64 as int, table_step());
        vstd::bits::lemma_u64_shl_is_mul(fraction_q64 % 0x20_0000_0000_0000, 11);
    }
    let index = (fraction_q64 >> 53) as usize;
    let residual = (fraction_q64 % 0x20_0000_0000_0000) << 11;
    let series = exp2_series::<UPPER>(residual);
    let (mantissa, carry) = exp2_mantissa::<UPPER>(index, series);
    let exponent = if carry { integer + 1 - 2 } else { integer - 2 };
    project_binary_unsigned::<UPPER>(mantissa, exponent, scale)
}

/// A lower bound of `2^(exponent / scale)` in raw units of `scale`.
pub fn exp2_lower(exponent: i64, scale: u64) -> (r: Result<u64, MathError>)
    ensures
        r == exp2_spec(exponent as int, scale as int, false),
{
    let exponent_q = match scaled_signed_to_q::<false>(exponent, scale) {
        Ok(value) => value,
        Err(error) => return Err(error),
    };
    exp2_from_q::<false>(exponent_q, scale)
}

/// An upper bound of `2^(exponent / scale)` in raw units of `scale`.
pub fn exp2_upper(exponent: i64, scale: u64) -> (r: Result<u64, MathError>)
    ensures
        r == exp2_spec(exponent as int, scale as int, true),
{
    let exponent_q = match scaled_signed_to_q::<true>(exponent, scale) {
        Ok(value) => value,
        Err(error) => return Err(error),
    };
    exp2_from_q::<true>(exponent_q, scale)
}

/// Both directed powers from one scale-entry division: exactly
/// `(exp2_lower, exp2_upper)` when both succeed, and the first error
/// otherwise.
pub fn exp2_bounds(exponent: i64, scale: u64) -> (r: Result<(u64, u64), MathError>)
    ensures
        r == pair_results(exp2_spec(exponent as int, scale as int, false), exp2_spec(exponent as int, scale as int, true)),
{
    let (lower_q, upper_q) = match scaled_signed_to_q_bounds(exponent, scale) {
        Ok(pair) => pair,
        Err(error) => return Err(error),
    };
    let lower = match exp2_from_q::<false>(lower_q, scale) {
        Ok(value) => value,
        Err(error) => return Err(error),
    };
    let upper = match exp2_from_q::<true>(upper_q, scale) {
        Ok(value) => value,
        Err(error) => return Err(error),
    };
    Ok((lower, upper))
}

} // verus!
