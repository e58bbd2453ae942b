//! Certified bounds for periodic compounding `(1 + rate / periods)^elapsed`:
//! `exp2(elapsed * log2(1 + x))` from an alternating series for small
//! per-period rates, directed binary squaring beyond it.
use crate::arith::{ceil_div, directed, lemma_directed, lemma_div_le, lemma_div_lt_iff, lemma_div_mod, lemma_div_unique, lemma_mul_le, pair_results, two_words, word};
use crate::error::MathError;
use crate::kernel::exp2::{exp2_from_q, exp2_q_spec};
use crate::kernel::log2::lemma_bit_length;
use crate::kernel::scale::{
    lemma_q_is_pow2, mul_q_unsigned, mul_signed_q, mul_signed_q_spec, pow2_u128, project_binary_spec,
    project_binary_unsigned, Q,
};
use crate::kernel::wide::{div_rem_wide_quotient, widening_mul};
use vstd::arithmetic::power2::{lemma_pow2_adds, lemma_pow2_pos, lemma_pow2_strictly_increases, pow2};
use vstd::prelude::*;

verus! {

/// A binary value `mantissa * 2^(exponent - 63)`; the exponent saturates
/// at the ends of `i64` instead of wrapping.
#[derive(Clone, Copy)]
pub struct Normalized {
    /// The Q63 mantissa, in `[2^63, 2^64)` once normalized.
    pub mantissa: u64,
    /// The binary exponent.
    pub exponent: i64,
}

/// `value` clamped to the range of `i64`.
pub open spec fn saturate_i64(value: int) -> int {
    if value > i64::MAX {
        i64::MAX as int
    } else if value < i64::MIN {
        i64::MIN as int
    } else {
        value
    }
}

/// `a + b`, saturating at the ends of `i64`.
fn saturating_add_i64(a: i64, b: i64) -> (r: i64)
    ensures
        r == saturate_i64(a + b),
{
    let sum = a as i128 + b as i128;
    if sum > 0x7FFF_FFFF_FFFF_FFFF {
        i64::MAX
    } else if sum < -0x8000_0000_0000_0000 {
        i64::MIN
    } else {
        sum as i64
    }
}

/// `b` is the bit length of `x`: `2^(b - 1) <= x < 2^b`.
pub open spec fn is_bit_length(x: int, b: int) -> bool {
    1 <= b <= 128 && pow2((b - 1) as nat) <= x < pow2(b as nat)
}

/// The bit length of a positive double word.
pub open spec fn bit_length(x: int) -> int {
    choose|b: int| is_bit_length(x, b)
}

/// A bit length is unique.
proof fn lemma_bit_length_unique(x: int, a: int, b: int)
    requires
        is_bit_length(x, a),
        is_bit_length(x, b),
    ensures
        a == b,
{
    if a < b {
        if a < b - 1 {
            lemma_pow2_strictly_increases(a as nat, (b - 1) as nat);
        }
    } else if b < a {
        if b < a - 1 {
            lemma_pow2_strictly_increases(b as nat, (a - 1) as nat);
        }
    }
}

/// The bit length of a positive double word, from the leading zeros of
/// its top nonzero word.
fn bit_length_u128(value: u128) -> (r: u64)
    requires
        value > 0,
    ensures
        is_bit_length(value as int, r as int),
        r == bit_length(value as int),
{
    proof {
        vstd::bits::lemma_u128_shr_is_div(value, 64);
        vstd::arithmetic::power2::lemma2_to64_rest();
        lemma_div_mod(value as int, word());
    }
    let high = (value >> 64u128) as u64;
    let bits = if high != 0 {
        let zeros = high.leading_zeros() as u64;
        proof {
            lemma_bit_length(high, zeros);
            lemma_pow2_adds((63 - zeros) as nat, 64);
            lemma_pow2_adds((64 - zeros) as nat, 64);
            let lo = pow2((63 - zeros) as nat) as int;
            let hi = pow2((64 - zeros) as nat) as int;
            let v = value as int;
            assert(lo * word() <= v < hi * word()) by (nonlinear_arith)
                requires
                    v == high * word() + v % word(),
                    0 <= v % word() < word(),
                    lo <= high,
                    high + 1 <= hi,
            ;
        }
        128 - zeros
    } else {
        let zeros = (value as u64).leading_zeros() as u64;
        proof {
            lemma_bit_length(value as u64, zeros);
        }
        64 - zeros
    };
    proof {
        assert(is_bit_length(value as int, bits as int));
        lemma_bit_length_unique(value as int, bits as int, bit_length(value as int));
    }
    bits
}

/// The normalized binary form of the positive Q61 value `value_q`: its
/// top 64 bits as the mantissa, rounded up when `up` and inexact, with a
/// rounding that reaches `2^64` renormalized.
pub open spec fn normalize_spec(value_q: int, up: bool) -> Normalized {
    let b = bit_length(value_q);
    if b <= 64 {
        Normalized { mantissa: (value_q * pow2((64 - b) as nat)) as u64, exponent: (b - 62) as i64 }
    } else {
        let m = directed(value_q, pow2((b - 64) as nat) as int, up);
        if m >= word() {
            Normalized { mantissa: 0x8000_0000_0000_0000, exponent: (b - 61) as i64 }
        } else {
            Normalized { mantissa: m as u64, exponent: (b - 62) as i64 }
        }
    }
}

/// Packs a positive Q61 value into `Normalized`, as `normalize_spec`
/// states it.
fn normalize_q61<const UPPER: bool>(value_q: u128) -> (r: Normalized)
    requires
        value_q > 0,
    ensures
        r == normalize_spec(value_q as int, UPPER),
        r.mantissa >= 0x8000_0000_0000_0000,
{
    let bits = bit_length_u128(value_q);
    proof {
        lemma_pow2_pos((bits - 1) as nat);
        vstd::arithmetic::power2::lemma2_to64_rest();
    }
    if bits <= 64 {
        let shift = 64 - bits;
        proof {
            if bits < 64 {
                lemma_pow2_strictly_increases(bits as nat, 64);
            }
            lemma_pow2_adds(bits as nat, shift as nat);
            lemma_pow2_adds((bits - 1) as nat, shift as nat);
            lemma_pow2_pos(shift as nat);
            let p = pow2(shift as nat) as int;
            assert(value_q * p < pow2(bits as nat) * p) by (nonlinear_arith)
                requires
                    value_q < pow2(bits as nat),
                    p > 0,
            ;
            assert(value_q * p >= pow2((bits - 1) as nat) * p) by (nonlinear_arith)
                requires
                    value_q >= pow2((bits - 1) as nat),
                    p > 0,
            ;
            assert(pow2(63) == 0x8000_0000_0000_0000);
            vstd::bits::lemma_u64_shl_is_mul(value_q as u64, shift);
        }
        return Normalized { mantissa: (value_q as u64) << shift, exponent: bits as i64 - 62 };
    }
    let shift = bits - 64;
    let divisor = pow2_u128(shift as u32);
    let ghost p = pow2(shift as nat) as int;
    proof {
        lemma_pow2_adds(64, shift as nat);
        lemma_pow2_adds(63, shift as nat);
        lemma_div_lt_iff(value_q as int, p, word());
        lemma_div_mod(value_q as int, p);
        assert(0x8000_0000_0000_0000 * p <= value_q);
        lemma_div_le(0x8000_0000_0000_0000 * p, value_q as int, p);
        vstd::arithmetic::div_mod::lemma_div_multiples_vanish(0x8000_0000_0000_0000, p);
        lemma_directed(value_q as int, p);
    }
    let mantissa = (value_q / divisor) as u64;
    let inexact = value_q % divisor != 0;
    if UPPER && inexact {
        match mantissa.checked_add(1) {
            Some(rounded) => Normalized { mantissa: rounded, exponent: bits as i64 - 62 },
            None => Normalized { mantissa: 0x8000_0000_0000_0000, exponent: bits as i64 - 61 },
        }
    } else {
        Normalized { mantissa, exponent: bits as i64 - 62 }
    }
}

/// The directed product of two normalized values: the 128-bit product's
/// top 64 bits, rounded up when `up` and inexact, with the exponents added
/// under saturation.
pub open spec fn mul_normalized_spec(lhs: Normalized, rhs: Normalized, up: bool) -> Normalized {
    let product = lhs.mantissa * rhs.mantissa;
    let wide = product >= 0x8000_0000_0000_0000_0000_0000_0000_0000;
    let m = directed(product, if wide { word() } else { 0x8000_0000_0000_0000 }, up);
    let carry = if wide { 1int } else { 0 };
    let exponent = saturate_i64(lhs.exponent + rhs.exponent);
    if m >= word() {
        Normalized { mantissa: 0x8000_0000_0000_0000, exponent: saturate_i64(exponent + carry + 1) as i64 }
    } else {
        Normalized { mantissa: m as u64, exponent: saturate_i64(exponent + carry) as i64 }
    }
}

/// One directed multiply, as `mul_normalized_spec` states it.
fn mul_normalized<const UPPER: bool>(lhs: Normalized, rhs: Normalized) -> (r: Normalized)
    requires
        lhs.mantissa >= 0x8000_0000_0000_0000,
        rhs.mantissa >= 0x8000_0000_0000_0000,
    ensures
        r == mul_normalized_spec(lhs, rhs, UPPER),
        r.mantissa >= 0x8000_0000_0000_0000,
{
    let (high, low) = widening_mul(lhs.mantissa, rhs.mantissa);
    let exponent = saturating_add_i64(lhs.exponent, rhs.exponent);
    let ghost product = lhs.mantissa * rhs.mantissa;
    proof {
        lemma_mul_le(0x8000_0000_0000_0000, 0x8000_0000_0000_0000, lhs.mantissa as int, rhs.mantissa as int);
        lemma_directed(product, word());
        lemma_directed(product, 0x8000_0000_0000_0000);
        lemma_div_unique(product, word(), high as int, low as int);
    }
    let (mantissa, inexact, carry) = if high >= 0x8000_0000_0000_0000 {
        (high, low != 0, 1i64)
    } else {
        proof {
            lemma_div_mod(low as int, 0x8000_0000_0000_0000);
            lemma_div_unique(product, 0x8000_0000_0000_0000, high * 2 + (low as int) / 0x8000_0000_0000_0000, (low as int) % 0x8000_0000_0000_0000);
            lemma_div_lt_iff(low as int, 0x8000_0000_0000_0000, 2);
            lemma_div_lt_iff(product, 0x8000_0000_0000_0000, 0x1_0000_0000_0000_0000);
        }
        (high * 2 + low / 0x8000_0000_0000_0000, low % 0x8000_0000_0000_0000 != 0, 0i64)
    };
    if UPPER && inexact {
        match mantissa.checked_add(1) {
            Some(rounded) => Normalized { mantissa: rounded, exponent: saturating_add_i64(exponent, carry) },
            None => Normalized { mantissa: 0x8000_0000_0000_0000, exponent: saturating_add_i64(exponent, carry + 1) },
        }
    } else {
        Normalized { mantissa, exponent: saturating_add_i64(exponent, carry) }
    }
}

/// A normalized value as raw units of `scale`: `mantissa * 2^(exponent -
/// 63)` through the shared binary projection.
pub open spec fn project_normalized_spec(value: Normalized, scale: int, up: bool) -> Result<u64, MathError> {
    project_binary_spec(value.mantissa as int, value.exponent + 61 - 63, scale, up)
}

/// Projects a normalized value outward onto `scale` raw units.
fn project_normalized<const UPPER: bool>(value: Normalized, scale: u64) -> (r: Result<u64, MathError>)
    ensures
        r == project_normalized_spec(value, scale as int, UPPER),
{
    let exponent = value.exponent as i128 + 61 - 63;
    project_binary_unsigned::<UPPER>(value.mantissa, exponent, scale)
}

/// Directed binary exponentiation of normalized values: each set bit of
/// `exponent` multiplies the result by the factor, each further bit
/// squares the factor.
pub open spec fn binary_steps(result: Normalized, factor: Normalized, exponent: nat, up: bool) -> Normalized
    decreases exponent,
{
    if exponent == 0 {
        result
    } else {
        let next = if exponent % 2 == 1 { mul_normalized_spec(result, factor, up) } else { result };
        if exponent / 2 == 0 {
            next
        } else {
            binary_steps(next, mul_normalized_spec(factor, factor, up), exponent / 2, up)
        }
    }
}

/// One, as a normalized value.
pub open spec fn normalized_one() -> Normalized {
    Normalized { mantissa: 0x8000_0000_0000_0000, exponent: 0 }
}

/// `base^exponent` by directed binary squaring, projected onto `scale`.
fn binary_power<const UPPER: bool>(base: Normalized, exponent: u64, scale: u64) -> (r: Result<u64, MathError>)
    requires
        base.mantissa >= 0x8000_0000_0000_0000,
    ensures
        r == project_normalized_spec(binary_steps(normalized_one(), base, exponent as nat, UPPER), scale as int, UPPER),
{
    let mut result = Normalized { mantissa: 0x8000_0000_0000_0000, exponent: 0 };
    let mut factor = base;
    let mut remaining = exponent;
    while remaining != 0
        invariant
            result.mantissa >= 0x8000_0000_0000_0000,
            factor.mantissa >= 0x8000_0000_0000_0000,
            binary_steps(result, factor, remaining as nat, UPPER) == binary_steps(normalized_one(), base, exponent as nat, UPPER),
        decreases remaining,
    {
        if remaining % 2 != 0 {
            result = mul_normalized::<UPPER>(result, factor);
        }
        remaining = remaining / 2;
        if remaining != 0 {
            factor = mul_normalized::<UPPER>(factor, factor);
        }
    }
    project_normalized::<UPPER>(result, scale)
}

/// `(base / scale)^exponent` through the binary squaring of compounding:
/// one Q61 seed division, one directed rounding per step, one projection;
/// a seed that rounds to zero gives zero.
pub open spec fn powi_binary_spec(base: u64, exponent: u64, scale: u64, up: bool) -> Result<u64, MathError> {
    let base_q = directed(base * Q, scale as int, up);
    if base_q == 0 {
        Ok(0)
    } else {
        project_normalized_spec(binary_steps(normalized_one(), normalize_spec(base_q, up), exponent as nat, up), scale as int, up)
    }
}

/// `(base / scale)^exponent` by the same directed binary squaring as the
/// beyond-domain compounding path, as `powi_binary_spec` states it.
pub fn powi_binary<const UPPER: bool>(base: u64, exponent: u64, scale: u64) -> (r: Result<u64, MathError>)
    requires
        scale != 0,
        exponent != 0,
    ensures
        r == powi_binary_spec(base, exponent, scale, UPPER),
{
    proof {
        lemma_q_is_pow2();
        vstd::bits::lemma_u64_shr_is_div(base, 3);
        vstd::arithmetic::power2::lemma2_to64();
        lemma_div_mod(base as int, 8);
        vstd::bits::lemma_u64_shl_is_mul(base % 8, 61);
        vstd::arithmetic::power2::lemma2_to64_rest();
    }
    let (high, low, remainder) = div_rem_wide_quotient(base >> 3, (base % 8) << 61, scale);
    proof {
        assert(two_words(base >> 3, ((base % 8) << 61) as u64) == base * Q);
        lemma_directed(base * Q, scale as int);
        lemma_div_le(base * Q, (u64::MAX as int) * Q, scale as int);
    }
    let quotient = (high as u128) * 0x1_0000_0000_0000_0000 + (low as u128);
    let base_q = quotient + if UPPER && remainder != 0 { 1 } else { 0 };
    if base_q == 0 {
        return Ok(0);
    }
    binary_power::<UPPER>(normalize_q61::<UPPER>(base_q), exponent, scale)
}

} // verus!

verus! {

/// `1 / ln(2)` in Q61, rounded down.
pub const INV_LN2_LOWER: u64 = 3_326_628_274_461_080_622;

/// `1 / ln(2)` in Q61, rounded up.
pub const INV_LN2_UPPER: u64 = 3_326_628_274_461_080_623;

/// `annual_rate * 256 > periods_per_year * scale`: the per-period rate is
/// beyond `1/256`, where the series is not used.
pub open spec fn beyond_series_domain_spec(annual_rate: u64, periods_per_year: u64, scale: u64) -> bool {
    annual_rate * 256 > periods_per_year * scale
}

/// Whether the per-period rate is beyond the series domain.
fn beyond_series_domain(annual_rate: u64, periods_per_year: u64, scale: u64) -> (r: bool)
    ensures
        r == beyond_series_domain_spec(annual_rate, periods_per_year, scale),
{
    let (product_high, product_low) = widening_mul(periods_per_year, scale);
    let product = (product_high as u128) * 0x1_0000_0000_0000_0000 + (product_low as u128);
    (annual_rate as u128) * 256 > product
}

/// `annual_rate * Q / (periods_per_year * scale)` as a two-word quotient
/// and whether the division was inexact, through two word divisions:
/// nested floors divide by a product exactly.
fn rate_q_stages(annual_rate: u64, periods_per_year: u64, scale: u64) -> (r: (u64, u64, bool))
    requires
        periods_per_year != 0,
        scale != 0,
    ensures
        two_words(r.0, r.1) == (annual_rate * Q) / (periods_per_year * scale),
        r.2 == ((annual_rate * Q) % (periods_per_year * scale) != 0),
{
    proof {
        lemma_q_is_pow2();
        vstd::bits::lemma_u64_shr_is_div(annual_rate, 3);
        vstd::arithmetic::power2::lemma2_to64();
        vstd::arithmetic::power2::lemma2_to64_rest();
        lemma_div_mod(annual_rate as int, 8);
        vstd::bits::lemma_u64_shl_is_mul(annual_rate % 8, 61);
    }
    let (stage_high, stage_low, first_remainder) = div_rem_wide_quotient(annual_rate >> 3, (annual_rate % 8) << 61, periods_per_year);
    let (quotient_high, quotient_low, second_remainder) = div_rem_wide_quotient(stage_high, stage_low, scale);
    proof {
        let x = annual_rate * Q;
        assert(two_words(annual_rate >> 3, ((annual_rate % 8) << 61) as u64) == x);
        assert(x >= 0);
        vstd::arithmetic::div_mod::lemma_div_denominator(x, periods_per_year as int, scale as int);
        vstd::arithmetic::div_mod::lemma_mod_breakdown(x, periods_per_year as int, scale as int);
        lemma_div_mod(x / (periods_per_year as int), scale as int);
        lemma_div_mod(x, periods_per_year as int);
        assert(periods_per_year * ((x / periods_per_year as int) % (scale as int)) >= 0) by (nonlinear_arith)
            requires
                periods_per_year > 0,
                (x / periods_per_year as int) % (scale as int) >= 0,
        ;
        assert(periods_per_year * ((x / periods_per_year as int) % (scale as int)) == 0
            <==> (x / periods_per_year as int) % (scale as int) == 0) by (nonlinear_arith)
            requires
                periods_per_year > 0,
        ;
    }
    (quotient_high, quotient_low, first_remainder != 0 || second_remainder != 0)
}

/// `x^k / Q^(k - 1)` in Q61, each product rounded up when `up`.
pub open spec fn power_q(x: int, k: nat, up: bool) -> int
    decreases k,
{
    if k <= 1 {
        x
    } else {
        directed(power_q(x, (k - 1) as nat, up) * x, Q as int, up)
    }
}

/// The four sums of the alternating series `x - x^2/2 + x^3/3 - ...`
/// through degree `d`: the lower bound's added and subtracted terms
/// (through degree six) and the upper bound's (through degree five), each
/// term rounded against the bound it belongs to.
pub open spec fn ln1p_sums(x_lower: int, x_upper: int, d: nat) -> (int, int, int, int)
    decreases d,
{
    if d == 0 {
        (0, 0, 0, 0)
    } else {
        let previous = ln1p_sums(x_lower, x_upper, (d - 1) as nat);
        let power_lower = power_q(x_lower, d, false);
        let power_upper = power_q(x_upper, d, true);
        if d % 2 == 1 {
            (
                previous.0 + power_lower / (d as int),
                previous.1,
                if d <= 5 { previous.2 + ceil_div(power_upper, d as int) } else { previous.2 },
                previous.3,
            )
        } else {
            (
                previous.0,
                previous.1 + ceil_div(power_upper, d as int),
                previous.2,
                if d <= 5 { previous.3 + power_lower / (d as int) } else { previous.3 },
            )
        }
    }
}

/// `a - b`, or zero when negative.
pub open spec fn saturating_difference(a: int, b: int) -> int {
    if a - b < 0 {
        0
    } else {
        a - b
    }
}

/// Bounds of `ln(1 + x)` in Q61 for `x` between `x_lower` and `x_upper`:
/// the series through degree six below, through degree five above, each
/// clamped at zero.
pub open spec fn ln1p_spec(x_lower: int, x_upper: int) -> (int, int) {
    let sums = ln1p_sums(x_lower, x_upper, 6);
    (saturating_difference(sums.0, sums.1), saturating_difference(sums.2, sums.3))
}

/// `value / denominator`, rounded up when `UPPER`.
fn div_small<const UPPER: bool>(value: u64, denominator: u64) -> (r: u64)
    requires
        denominator > 0,
    ensures
        r == directed(value as int, denominator as int, UPPER),
        r <= value,
{
    proof {
        lemma_div_mod(value as int, denominator as int);
        lemma_directed(value as int, denominator as int);
        crate::arith::lemma_ceil_le_iff(value as int, denominator as int, value as int);
        lemma_mul_le(value as int, 1, value as int, denominator as int);
    }
    value / denominator + if UPPER && value % denominator != 0 { 1 } else { 0 }
}

/// A directed power of `x <= Q` stays at most `x` and nonnegative.
proof fn lemma_power_q_bounded(x: int, k: nat, up: bool)
    requires
        0 <= x <= Q,
    ensures
        0 <= power_q(x, k, up) <= x,
    decreases k,
{
    if k > 1 {
        lemma_power_q_bounded(x, (k - 1) as nat, up);
        let p = power_q(x, (k - 1) as nat, up);
        lemma_q_is_pow2();
        lemma_mul_le(p, x, x, Q as int);
        lemma_mul_le(0, 0, p, x);
        lemma_directed(p * x, Q as int);
        lemma_div_le(p * x, x * Q, Q as int);
        vstd::arithmetic::div_mod::lemma_div_multiples_vanish(x, Q as int);
        crate::arith::lemma_ceil_le_iff(p * x, Q as int, x);
        assert(x * Q == (Q as int) * x) by (nonlinear_arith);
    }
}

/// Both bounds of `ln(1 + x)` in Q61, as `ln1p_spec` states them.
fn ln1p_bounds(x_lower: u64, x_upper: u64) -> (r: (u64, u64))
    requires
        x_lower <= x_upper <= 0x20_0000_0000_0000,
    ensures
        r.0 == ln1p_spec(x_lower as int, x_upper as int).0,
        r.1 == ln1p_spec(x_lower as int, x_upper as int).1,
        r.0 <= 0x100_0000_0000_0000,
        r.1 <= 0x100_0000_0000_0000,
{
    proof {
        lemma_q_is_pow2();
    }
    let mut power_lower = x_lower;
    let mut power_upper = x_upper;
    let mut lower_added = 0u64;
    let mut lower_subtracted = 0u64;
    let mut upper_added = 0u64;
    let mut upper_subtracted = 0u64;
    let mut degree = 1u64;
    while degree <= 6
        invariant
            1 <= degree <= 7,
            x_lower <= x_upper <= 0x20_0000_0000_0000,
            power_lower == power_q(x_lower as int, degree as nat, false),
            power_upper == power_q(x_upper as int, degree as nat, true),
            (lower_added as int, lower_subtracted as int, upper_added as int, upper_subtracted as int)
                == ln1p_sums(x_lower as int, x_upper as int, (degree - 1) as nat),
            lower_added <= (degree - 1) * 0x20_0000_0000_0000,
            lower_subtracted <= (degree - 1) * 0x20_0000_0000_0000,
            upper_added <= (degree - 1) * 0x20_0000_0000_0000,
            upper_subtracted <= (degree - 1) * 0x20_0000_0000_0000,
        decreases 7 - degree,
    {
        proof {
            lemma_power_q_bounded(x_lower as int, degree as nat, false);
            lemma_power_q_bounded(x_upper as int, degree as nat, true);
            lemma_power_q_bounded(x_lower as int, (degree + 1) as nat, false);
            lemma_power_q_bounded(x_upper as int, (degree + 1) as nat, true);
        }
        if degree % 2 == 1 {
            lower_added = lower_added + div_small::<false>(power_lower, degree);
            if degree <= 5 {
                upper_added = upper_added + div_small::<true>(power_upper, degree);
            }
        } else {
            lower_subtracted = lower_subtracted + div_small::<true>(power_upper, degree);
            if degree <= 5 {
                upper_subtracted = upper_subtracted + div_small::<false>(power_lower, degree);
            }
        }
        power_lower = mul_q_unsigned::<false>(power_lower, x_lower) as u64;
        power_upper = mul_q_unsigned::<true>(power_upper, x_upper) as u64;
        degree = degree + 1;
    }
    (lower_added.saturating_sub(lower_subtracted), upper_added.saturating_sub(upper_subtracted))
}

} // verus!

verus! {

/// Binary-squaring compounding beyond the series domain: the base
/// `1 + rate` seeded once at Q61 precision in the promised direction, then
/// raised to `elapsed_periods`.
pub open spec fn compound_binary_spec(annual_rate: u64, periods_per_year: u64, elapsed_periods: u64, scale: u64, up: bool) -> Result<u64, MathError> {
    let rate_q = directed(annual_rate * Q, periods_per_year * scale, up);
    let base = normalize_spec(Q + rate_q, up);
    project_normalized_spec(binary_steps(normalized_one(), base, elapsed_periods as nat, up), scale as int, up)
}

/// The bound of `(1 + (annual_rate / scale) / periods_per_year)^elapsed_periods`
/// in raw units of `scale` that `compound_lower` (`up == false`) or
/// `compound_upper` (`up == true`) returns: a zero scale is `DivByZero`,
/// zero periods per year `OutOfDomain`; no time or no rate is exactly one;
/// a per-period rate beyond `1/256` takes binary squaring, any other
/// `exp2(elapsed * ln(1 + x) / ln(2))` with the bracketing series.
pub open spec fn compound_spec(annual_rate: u64, periods_per_year: u64, elapsed_periods: u64, scale: u64, up: bool) -> Result<u64, MathError> {
    if scale == 0 {
        Err(MathError::DivByZero)
    } else if periods_per_year == 0 {
        Err(MathError::OutOfDomain)
    } else if elapsed_periods == 0 || annual_rate == 0 {
        Ok(scale)
    } else if beyond_series_domain_spec(annual_rate, periods_per_year, scale) {
        compound_binary_spec(annual_rate, periods_per_year, elapsed_periods, scale, up)
    } else {
        let x_lower = (annual_rate * Q) / (periods_per_year * scale);
        let x_upper = ceil_div(annual_rate * Q, periods_per_year * scale);
        let ln = ln1p_spec(x_lower, x_upper);
        let log2_value = if up {
            directed(ln.1 * (INV_LN2_UPPER as int), Q as int, true)
        } else {
            directed(ln.0 * (INV_LN2_LOWER as int), Q as int, false)
        };
        exp2_q_spec(mul_signed_q_spec(log2_value, elapsed_periods * Q, up), scale as int, up)
    }
}

/// The per-period rate in Q61 as one double word, and whether it was
/// inexact.
fn binary_rate_q(annual_rate: u64, periods_per_year: u64, scale: u64) -> (r: (u128, bool))
    requires
        periods_per_year != 0,
        scale != 0,
    ensures
        r.0 == (annual_rate * Q) / (periods_per_year * scale),
        r.1 == ((annual_rate * Q) % (periods_per_year * scale) != 0),
{
    let (high, low, inexact) = rate_q_stages(annual_rate, periods_per_year, scale);
    ((high as u128) * 0x1_0000_0000_0000_0000 + (low as u128), inexact)
}

/// The directed seed `Q + rate_q` of the binary path.
proof fn lemma_binary_seed(annual_rate: u64, periods_per_year: u64, scale: u64)
    requires
        periods_per_year != 0,
        scale != 0,
    ensures
        0 <= (annual_rate * Q) / (periods_per_year * scale),
        directed(annual_rate * Q, periods_per_year * scale, true) <= 0x2000_0000_0000_0000_0000_0000_0000_0001,
        directed(annual_rate * Q, periods_per_year * scale, false) == (annual_rate * Q) / (periods_per_year * scale),
        directed(annual_rate * Q, periods_per_year * scale, true) == (annual_rate * Q) / (periods_per_year * scale)
            + (if (annual_rate * Q) % (periods_per_year * scale) != 0 { 1int } else { 0 }),
{
    lemma_q_is_pow2();
    let d = periods_per_year * scale;
    lemma_mul_le(1, 1, periods_per_year as int, scale as int);
    lemma_directed(annual_rate * Q, d);
    lemma_mul_le(annual_rate as int, Q as int, u64::MAX as int, Q as int);
    lemma_div_le(annual_rate * Q, (u64::MAX as int) * (Q as int), d);
    vstd::arithmetic::div_mod::lemma_div_is_ordered_by_denominator((u64::MAX as int) * (Q as int), 1, d);
}

/// Binary-squaring compounding, as `compound_binary_spec` states it.
fn compound_binary<const UPPER: bool>(annual_rate: u64, periods_per_year: u64, elapsed_periods: u64, scale: u64) -> (r: Result<u64, MathError>)
    requires
        periods_per_year != 0,
        scale != 0,
    ensures
        r == compound_binary_spec(annual_rate, periods_per_year, elapsed_periods, scale, UPPER),
{
    let (quotient, inexact) = binary_rate_q(annual_rate, periods_per_year, scale);
    proof {
        lemma_binary_seed(annual_rate, periods_per_year, scale);
    }
    let rate_q = quotient + if UPPER && inexact { 1 } else { 0 };
    let base = normalize_q61::<UPPER>(0x2000_0000_0000_0000 + rate_q);
    binary_power::<UPPER>(base, elapsed_periods, scale)
}

/// Both directed binary-path results sharing the seed division.
fn compound_binary_bounds(annual_rate: u64, periods_per_year: u64, elapsed_periods: u64, scale: u64) -> (r: Result<(u64, u64), MathError>)
    requires
        periods_per_year != 0,
        scale != 0,
    ensures
        r == pair_results(
            compound_binary_spec(annual_rate, periods_per_year, elapsed_periods, scale, false),
            compound_binary_spec(annual_rate, periods_per_year, elapsed_periods, scale, true),
        ),
{
    let (quotient, inexact) = binary_rate_q(annual_rate, periods_per_year, scale);
    proof {
        lemma_binary_seed(annual_rate, periods_per_year, scale);
    }
    let base_lower = normalize_q61::<false>(0x2000_0000_0000_0000 + quotient);
    let base_upper = normalize_q61::<true>(0x2000_0000_0000_0000 + quotient + if inexact { 1 } else { 0 });
    let lower = match binary_power::<false>(base_lower, elapsed_periods, scale) {
        Ok(value) => value,
        Err(error) => return Err(error),
    };
    let upper = match binary_power::<true>(base_upper, elapsed_periods, scale) {
        Ok(value) => value,
        Err(error) => return Err(error),
    };
    Ok((lower, upper))
}

/// The series-domain rate stays within `Q / 256` and its logarithms
/// within a word.
proof fn lemma_series_rate(annual_rate: u64, periods_per_year: u64, scale: u64)
    requires
        periods_per_year != 0,
        scale != 0,
        !beyond_series_domain_spec(annual_rate, periods_per_year, scale),
    ensures
        (annual_rate * Q) / (periods_per_year * scale) <= ceil_div(annual_rate * Q, periods_per_year * scale),
        ceil_div(annual_rate * Q, periods_per_year * scale) <= 0x20_0000_0000_0000,
        0 <= (annual_rate * Q) / (periods_per_year * scale),
{
    lemma_q_is_pow2();
    let d = periods_per_year * scale;
    lemma_mul_le(1, 1, periods_per_year as int, scale as int);
    lemma_directed(annual_rate * Q, d);
    // rate * 2^61 <= 2^53 * (rate * 256) <= 2^53 * d
    assert(annual_rate * Q <= 0x20_0000_0000_0000 * d) by (nonlinear_arith)
        requires
            annual_rate * 256 <= d,
            Q == 0x2000_0000_0000_0000,
    ;
    crate::arith::lemma_ceil_le_iff(annual_rate * Q, d, 0x20_0000_0000_0000);
    assert(annual_rate * Q >= 0) by (nonlinear_arith);
}

/// The Q61 logarithm of the per-period growth factor, scaled by `1/ln 2`.
fn series_log2<const UPPER: bool>(ln: u64) -> (r: u64)
    requires
        ln <= 0x100_0000_0000_0000,
    ensures
        UPPER ==> r == directed(ln * (INV_LN2_UPPER as int), Q as int, true),
        !UPPER ==> r == directed(ln * (INV_LN2_LOWER as int), Q as int, false),
        r <= 0x400_0000_0000_0000,
{
    proof {
        lemma_q_is_pow2();
        lemma_mul_le(ln as int, INV_LN2_UPPER as int, 0x100_0000_0000_0000, INV_LN2_UPPER as int);
        lemma_directed(ln * (INV_LN2_UPPER as int), Q as int);
        lemma_directed(ln * (INV_LN2_LOWER as int), Q as int);
        crate::arith::lemma_ceil_le_iff(ln * (INV_LN2_UPPER as int), Q as int, 0x400_0000_0000_0000);
        lemma_mul_le(ln as int, INV_LN2_LOWER as int, ln as int, INV_LN2_UPPER as int);
        lemma_div_le(ln * (INV_LN2_LOWER as int), ln * (INV_LN2_UPPER as int), Q as int);
    }
    if UPPER {
        mul_q_unsigned::<true>(ln, INV_LN2_UPPER) as u64
    } else {
        mul_q_unsigned::<false>(ln, INV_LN2_LOWER) as u64
    }
}

/// Periodic compounding rounded up when `UPPER`, as `compound_spec`
/// states it.
fn compound<const UPPER: bool>(annual_rate: u64, periods_per_year: u64, elapsed_periods: u64, scale: u64) -> (r: Result<u64, MathError>)
    ensures
        r == compound_spec(annual_rate, periods_per_year, elapsed_periods, scale, UPPER),
{
    if scale == 0 {
        return Err(MathError::DivByZero);
    }
    if periods_per_year == 0 {
        return Err(MathError::OutOfDomain);
    }
    if elapsed_periods == 0 || annual_rate == 0 {
        return Ok(scale);
    }
    if beyond_series_domain(annual_rate, periods_per_year, scale) {
        return compound_binary::<UPPER>(annual_rate, periods_per_year, elapsed_periods, scale);
    }
    let (x_high, x_lower, inexact) = rate_q_stages(annual_rate, periods_per_year, scale);
    proof {
        lemma_series_rate(annual_rate, periods_per_year, scale);
        assert(x_high == 0);
    }
    let x_upper = x_lower + if inexact { 1 } else { 0 };
    let (ln_lower, ln_upper) = ln1p_bounds(x_lower, x_upper);
    proof {
        lemma_q_is_pow2();
        lemma_mul_le(elapsed_periods as int, Q as int, u64::MAX as int, Q as int);
    }
    let elapsed_q = (elapsed_periods as i128) * 0x2000_0000_0000_0000;
    let exponent_q = if UPPER {
        mul_signed_q::<true>(series_log2::<true>(ln_upper) as i128, elapsed_q)
    } else {
        mul_signed_q::<false>(series_log2::<false>(ln_lower) as i128, elapsed_q)
    };
    exp2_from_q::<UPPER>(exponent_q, scale)
}

/// A lower bound of periodic compounding in raw units of `scale`.
pub fn compound_lower(annual_rate: u64, periods_per_year: u64, elapsed_periods: u64, scale: u64) -> (r: Result<u64, MathError>)
    ensures
        r == compound_spec(annual_rate, periods_per_year, elapsed_periods, scale, false),
{
    compound::<false>(annual_rate, periods_per_year, elapsed_periods, scale)
}

/// An upper bound of periodic compounding in raw units of `scale`.
pub fn compound_upper(annual_rate: u64, periods_per_year: u64, elapsed_periods: u64, scale: u64) -> (r: Result<u64, MathError>)
    ensures
        r == compound_spec(annual_rate, periods_per_year, elapsed_periods, scale, true),
{
    compound::<true>(annual_rate, periods_per_year, elapsed_periods, scale)
}

/// Both directed compoundings in one pass, sharing the rate division and
/// the series: exactly `(compound_lower, compound_upper)` when both
/// succeed, and the first error otherwise.
pub fn compound_bounds(annual_rate: u64, periods_per_year: u64, elapsed_periods: u64, scale: u64) -> (r: Result<(u64, u64), MathError>)
    ensures
        r == pair_results(
            compound_spec(annual_rate, periods_per_year, elapsed_periods, scale, false),
            compound_spec(annual_rate, periods_per_year, elapsed_periods, scale, true),
        ),
{
    if scale == 0 {
        return Err(MathError::DivByZero);
    }
    if periods_per_year == 0 {
        return Err(MathError::OutOfDomain);
    }
    if elapsed_periods == 0 || annual_rate == 0 {
        return Ok((scale, scale));
    }
    if beyond_series_domain(annual_rate, periods_per_year, scale) {
        return compound_binary_bounds(annual_rate, periods_per_year, elapsed_periods, scale);
    }
    let (x_high, x_lower, inexact) = rate_q_stages(annual_rate, periods_per_year, scale);
    proof {
        lemma_series_rate(annual_rate, periods_per_year, scale);
        assert(x_high == 0);
    }
    let x_upper = x_lower + if inexact { 1 } else { 0 };
    let (ln_lower, ln_upper) = ln1p_bounds(x_lower, x_upper);
    proof {
        lemma_q_is_pow2();
        lemma_mul_le(elapsed_periods as int, Q as int, u64::MAX as int, Q as int);
    }
    let log2_lower = series_log2::<false>(ln_lower);
    let log2_upper = series_log2::<true>(ln_upper);
    let elapsed_q = (elapsed_periods as i128) * 0x2000_0000_0000_0000;
    let lower = match exp2_from_q::<false>(mul_signed_q::<false>(log2_lower as i128, elapsed_q), scale) {
        Ok(value) => value,
        Err(error) => return Err(error),
    };
    let upper = match exp2_from_q::<true>(mul_signed_q::<true>(log2_upper as i128, elapsed_q), scale) {
        Ok(value) => value,
        Err(error) => return Err(error),
    };
    Ok((lower, upper))
}

} // verus!
