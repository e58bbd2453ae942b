//! Conversions between raw fixed-point values and the internal Q61 format.
use crate::arith::{directed, lemma_directed, lemma_div_le, lemma_div_lt_iff, lemma_div_mod, lemma_div_unique, lemma_mul_le, word};
use crate::error::MathError;
use crate::kernel::wide::{div_rem_128_by_64, lemma_shr_is_div_pow, mul_div, widening_mul};
use vstd::arithmetic::power2::{lemma_pow2_adds, lemma_pow2_pos, lemma_pow2_strictly_increases, pow2};
use vstd::prelude::*;

verus! {

/// Fraction bits of the internal fixed-point format.
pub const Q_BITS: u32 = 61;

/// One in the internal Q61 format.
pub const Q: u64 = 0x2000_0000_0000_0000;

/// The magnitude at which Q61 exponents saturate: `128 * Q`.
pub const EXPONENT_SATURATION: i128 = 0x10_0000_0000_0000_0000;

/// `Q` as a power of two.
pub proof fn lemma_q_is_pow2()
    ensures
        Q as int == pow2(61),
        EXPONENT_SATURATION as int == 128 * Q,
{
    vstd::arithmetic::power2::lemma2_to64();
    vstd::arithmetic::power2::lemma2_to64_rest();
}

/// `a * b / Q`, rounded up when `UPPER`.
pub fn mul_q_unsigned<const UPPER: bool>(a: u64, b: u64) -> (r: u128)
    ensures
        r == directed(a * b, Q as int, UPPER),
{
    let (high, low) = widening_mul(a, b);
    proof {
        assert(((high as u128) << 3u128) | ((low >> 61u64) as u128) == (high as u128) * 8 + (low >> 61u64)
            && low >> 61u64 == low / 0x2000_0000_0000_0000
            && low & 0x1FFF_FFFF_FFFF_FFFFu64 == low % 0x2000_0000_0000_0000) by (bit_vector);
        lemma_div_mod(low as int, Q as int);
        lemma_div_unique(a * b, Q as int, high * 8 + (low as int) / (Q as int), (low as int) % (Q as int));
    }
    let quotient = ((high as u128) << (64 - Q_BITS)) | ((low >> Q_BITS) as u128);
    quotient + if UPPER && low & (Q - 1) != 0 { 1 } else { 0 }
}

} // verus!

verus! {

/// `value * Q / scale` as its floor and whether the division was inexact.
///
/// A power-of-two scale divides by shifting; any other scale splits the
/// value into whole units and a remainder converted by one exact division.
pub fn scaled_magnitude_to_q(value: u64, scale: u64) -> (r: Result<(u128, bool), MathError>)
    requires
        scale > 0,
    ensures
        r == Ok::<(u128, bool), MathError>((((value * Q) / (scale as int)) as u128, (value * Q) % (scale as int) != 0)),
        (value * Q) / (scale as int) <= u128::MAX,
{
    let ghost n = value * Q;
    proof {
        lemma_q_is_pow2();
        lemma_div_mod(value as int, scale as int);
        lemma_div_mod(n, scale as int);
        lemma_div_le(n, value * Q, scale as int);
        lemma_mul_le(value as int, Q as int, u64::MAX as int, Q as int);
        lemma_div_le(n, n, 1);
        vstd::arithmetic::div_mod::lemma_div_is_ordered_by_denominator(n, 1, scale as int);
    }
    let (whole, fraction, discarded) = if scale & (scale - 1) == 0 {
        let scale_bits = scale.trailing_zeros() as u64;
        proof {
            vstd::std_specs::bits::axiom_u64_trailing_zeros(scale);
            assert(scale == (1u64 << scale_bits)) by (bit_vector)
                requires
                    scale != 0,
                    scale & ((scale - 1) as u64) == 0,
                    scale_bits < 64,
                    (scale >> scale_bits) & 1 == 1,
            ;
            lemma_shr_is_div_pow(value, scale_bits);
            vstd::bits::lemma_u64_low_bits_mask_is_mod(value, scale_bits as nat);
            assert(vstd::bits::low_bits_mask(scale_bits as nat) == scale - 1);
        }
        let whole = value >> scale_bits;
        let remainder = value & (scale - 1);
        if scale_bits <= 61 {
            let shift = 61 - scale_bits;
            proof {
                lemma_power_split(scale_bits as nat, shift as nat);
                vstd::bits::lemma_u64_pow2_no_overflow(shift as nat);
                lemma_mul_le(remainder as int, pow2(shift as nat) as int, scale - 1, pow2(shift as nat) as int);
                assert((scale - 1) * pow2(shift as nat) < Q) by (nonlinear_arith)
                    requires
                        scale * pow2(shift as nat) == Q,
                        pow2(shift as nat) > 0,
                ;
                vstd::bits::lemma_u64_shl_is_mul(remainder, shift);
                // n = whole * 2^61 + remainder * 2^(61 - t), exactly divisible.
                assert(n == (whole * Q + remainder * pow2(shift as nat)) * scale) by (nonlinear_arith)
                    requires
                        n == value * Q,
                        value == whole * scale + remainder,
                        Q == scale * pow2(shift as nat),
                ;
                lemma_div_unique(n, scale as int, whole * Q + remainder * pow2(shift as nat), 0);
            }
            (whole, remainder << shift, false)
        } else {
            let shift = scale_bits - 61;
            proof {
                lemma_power_split(61, shift as nat);
                lemma_shr_is_div_pow(remainder, shift);
                vstd::bits::lemma_u64_pow2_no_overflow(shift as nat);
                lemma_shr_is_div_pow(remainder, shift);
                vstd::bits::lemma_u64_low_bits_mask_is_mod(remainder, shift as nat);
                assert(vstd::bits::low_bits_mask(shift as nat) == (1u64 << shift) - 1);
                let p = pow2(shift as nat) as int;
                let rem_i = remainder as int;
                lemma_div_mod(rem_i, p);
                assert(n == (whole * Q + rem_i / p) * scale + (rem_i % p) * Q) by (nonlinear_arith)
                    requires
                        n == value * Q,
                        value == whole * scale + remainder,
                        scale == Q * p,
                        rem_i == (rem_i / p) * p + rem_i % p,
                        rem_i == remainder,
                ;
                lemma_mul_le(rem_i % p, Q as int, p - 1, Q as int);
                assert((rem_i % p) * Q < scale) by (nonlinear_arith)
                    requires
                        (rem_i % p) * Q <= (p - 1) * Q,
                        scale == Q * p,
                ;
                lemma_div_unique(n, scale as int, whole * Q + rem_i / p, (rem_i % p) * Q);
                assert((rem_i % p) * Q == 0 <==> rem_i % p == 0) by (nonlinear_arith)
                    requires
                        Q > 0,
                ;
            }
            (whole, remainder >> shift, remainder & ((1u64 << shift) - 1) != 0)
        }
    } else {
        let whole = value / scale;
        let remainder = value % scale;
        proof {
            lemma_mul_le(remainder as int, Q as int, scale - 1, Q as int);
            lemma_div_lt_iff(remainder * Q, scale as int, Q as int);
            assert(remainder * Q < Q * scale) by (nonlinear_arith)
                requires
                    remainder * Q <= (scale - 1) * Q,
            ;
        }
        let (fraction, discarded) = match mul_div(remainder, Q, scale) {
            Ok(pair) => pair,
            Err(error) => return Err(error),
        };
        proof {
            let f = (remainder * Q) / (scale as int);
            lemma_div_mod(remainder * Q, scale as int);
            assert(n == (whole * Q + f) * scale + (remainder * Q) % (scale as int)) by (nonlinear_arith)
                requires
                    n == value * Q,
                    value == whole * scale + remainder,
                    remainder * Q == f * scale + (remainder * Q) % (scale as int),
            ;
            lemma_div_unique(n, scale as int, whole * Q + f, (remainder * Q) % (scale as int));
        }
        (whole, fraction, discarded != 0)
    };
    proof {
        lemma_mul_le(whole as int, Q as int, u64::MAX as int, Q as int);
    }
    Ok(((whole as u128) * (Q as u128) + (fraction as u128), discarded))
}

/// `2^(a + b) == 2^a * 2^b`, with both factors positive.
proof fn lemma_power_split(a: nat, b: nat)
    ensures
        pow2(a + b) == pow2(a) * pow2(b),
        pow2(a) > 0,
        pow2(b) > 0,
        a + b == 61 ==> pow2(a) * pow2(b) == Q,
{
    lemma_pow2_adds(a, b);
    lemma_pow2_pos(a);
    lemma_pow2_pos(b);
    lemma_q_is_pow2();
}

} // verus!

verus! {

/// `|value|` for a signed word.
fn magnitude_i64(value: i64) -> (r: u64)
    ensures
        r == crate::arith::abs_int(value as int),
{
    if value < 0 {
        (-(value as i128)) as u64
    } else {
        value as u64
    }
}

/// `|value|` for a signed double word.
fn magnitude_i128(value: i128) -> (r: u128)
    ensures
        r == crate::arith::abs_int(value as int),
{
    if value < 0 {
        ((-(value + 1)) as u128) + 1
    } else {
        value as u128
    }
}

/// `value / scale` in Q61 rounded toward positive infinity when `UPPER`,
/// toward negative infinity otherwise; a zero scale is `DivByZero`.
pub fn scaled_signed_to_q<const UPPER: bool>(value: i64, scale: u64) -> (r: Result<i128, MathError>)
    ensures
        scale == 0 ==> r == Err::<i128, MathError>(MathError::DivByZero),
        scale != 0 ==> r == Ok::<i128, MathError>(directed(value * Q, scale as int, UPPER) as i128),
        scale != 0 ==> crate::arith::abs_int(directed(value * Q, scale as int, UPPER)) <= 0x1000_0000_0000_0000_0000_0000_0000_0001,
{
    if scale == 0 {
        return Err(MathError::DivByZero);
    }
    let negative = value < 0;
    let magnitude_in = magnitude_i64(value);
    let (magnitude, discarded) = match scaled_magnitude_to_q(magnitude_in, scale) {
        Ok(pair) => pair,
        Err(error) => return Err(error),
    };
    proof {
        lemma_signed_entry(value as int, magnitude_in as int, scale as int, UPPER);
    }
    let magnitude = magnitude + if UPPER != negative && discarded { 1 } else { 0 };
    if magnitude > 0x7fff_ffff_ffff_ffff_ffff_ffff_ffff_ffff {
        return Err(MathError::Overflow);
    }
    let signed = magnitude as i128;
    Ok(if negative { -signed } else { signed })
}

/// The signed entry rounds the magnitude away from the promised direction's
/// opposite, and stays far inside `i128`.
proof fn lemma_signed_entry(value: int, magnitude: int, scale: int, up: bool)
    requires
        scale > 0,
        magnitude == crate::arith::abs_int(value),
        magnitude <= 0x8000_0000_0000_0000,
    ensures
        directed(magnitude * Q, scale, up != (value < 0)) == (magnitude * Q) / scale
            + (if up != (value < 0) && (magnitude * Q) % scale != 0 { 1int } else { 0 }),
        value < 0 ==> directed(value * Q, scale, up) == -directed(magnitude * Q, scale, up != (value < 0)),
        value >= 0 ==> directed(value * Q, scale, up) == directed(magnitude * Q, scale, up != (value < 0)),
        0 <= directed(magnitude * Q, scale, up != (value < 0)) <= 0x1000_0000_0000_0000_0000_0000_0000_0001,
{
    lemma_directed(magnitude * Q, scale);
    lemma_mul_le(magnitude, Q as int, 0x8000_0000_0000_0000, Q as int);
    lemma_div_le(magnitude * Q, 0x8000_0000_0000_0000 * Q, scale);
    vstd::arithmetic::div_mod::lemma_div_is_ordered_by_denominator(0x8000_0000_0000_0000 * Q, 1, scale);
    if value < 0 {
        assert(value * Q == -(magnitude * Q));
        crate::arith::lemma_directed_neg(magnitude * Q, scale, up);
    }
}

/// `value / scale` in Q61 rounded up when `UPPER`; a zero scale is
/// `DivByZero`.
pub fn scaled_unsigned_to_q<const UPPER: bool>(value: u64, scale: u64) -> (r: Result<i128, MathError>)
    ensures
        scale == 0 ==> r == Err::<i128, MathError>(MathError::DivByZero),
        scale != 0 ==> r == Ok::<i128, MathError>(directed(value * Q, scale as int, UPPER) as i128),
        scale != 0 ==> 0 <= directed(value * Q, scale as int, UPPER) <= 0x2000_0000_0000_0000_0000_0000_0000_0000,
{
    if scale == 0 {
        return Err(MathError::DivByZero);
    }
    let (magnitude, discarded) = match scaled_magnitude_to_q(value, scale) {
        Ok(pair) => pair,
        Err(error) => return Err(error),
    };
    proof {
        lemma_unsigned_entry(value as int, scale as int);
    }
    let magnitude = magnitude + if UPPER && discarded { 1 } else { 0 };
    if magnitude > 0x7fff_ffff_ffff_ffff_ffff_ffff_ffff_ffff {
        return Err(MathError::Overflow);
    }
    Ok(magnitude as i128)
}

/// The unsigned entry is a small nonnegative Q61 value.
proof fn lemma_unsigned_entry(value: int, scale: int)
    requires
        scale > 0,
        0 <= value <= u64::MAX,
    ensures
        0 <= directed(value * Q, scale, false) <= directed(value * Q, scale, true) <= 0x2000_0000_0000_0000_0000_0000_0000_0000,
        directed(value * Q, scale, true) == (value * Q) / scale + (if (value * Q) % scale != 0 { 1int } else { 0 }),
{
    lemma_directed(value * Q, scale);
    lemma_mul_le(value, Q as int, u64::MAX as int, Q as int);
    lemma_div_le(value * Q, (u64::MAX as int) * Q, scale);
    vstd::arithmetic::div_mod::lemma_div_is_ordered_by_denominator((u64::MAX as int) * Q, 1, scale);
}

/// Both directed values of `value / scale` in Q61 from one division,
/// exactly as the single-direction constructors assemble them.
pub fn scaled_signed_to_q_bounds(value: i64, scale: u64) -> (r: Result<(i128, i128), MathError>)
    ensures
        scale == 0 ==> r == Err::<(i128, i128), MathError>(MathError::DivByZero),
        scale != 0 ==> r == Ok::<(i128, i128), MathError>((
            directed(value * Q, scale as int, false) as i128,
            directed(value * Q, scale as int, true) as i128,
        )),
        scale != 0 ==> crate::arith::abs_int(directed(value * Q, scale as int, false)) <= 0x1000_0000_0000_0000_0000_0000_0000_0001,
        scale != 0 ==> crate::arith::abs_int(directed(value * Q, scale as int, true)) <= 0x1000_0000_0000_0000_0000_0000_0000_0001,
{
    if scale == 0 {
        return Err(MathError::DivByZero);
    }
    let negative = value < 0;
    let magnitude_in = magnitude_i64(value);
    let (magnitude, discarded) = match scaled_magnitude_to_q(magnitude_in, scale) {
        Ok(pair) => pair,
        Err(error) => return Err(error),
    };
    proof {
        lemma_signed_entry(value as int, magnitude_in as int, scale as int, false);
        lemma_signed_entry(value as int, magnitude_in as int, scale as int, true);
    }
    let lower_magnitude = magnitude + if negative && discarded { 1 } else { 0 };
    let upper_magnitude = magnitude + if !negative && discarded { 1 } else { 0 };
    if lower_magnitude > 0x7fff_ffff_ffff_ffff_ffff_ffff_ffff_ffff
        || upper_magnitude > 0x7fff_ffff_ffff_ffff_ffff_ffff_ffff_ffff {
        return Err(MathError::Overflow);
    }
    let lower = lower_magnitude as i128;
    let upper = upper_magnitude as i128;
    Ok((if negative { -lower } else { lower }, if negative { -upper } else { upper }))
}

/// The unsigned twin of `scaled_signed_to_q_bounds`.
pub fn scaled_unsigned_to_q_bounds(value: u64, scale: u64) -> (r: Result<(i128, i128), MathError>)
    ensures
        scale == 0 ==> r == Err::<(i128, i128), MathError>(MathError::DivByZero),
        scale != 0 ==> r == Ok::<(i128, i128), MathError>((
            directed(value * Q, scale as int, false) as i128,
            directed(value * Q, scale as int, true) as i128,
        )),
        scale != 0 ==> 0 <= directed(value * Q, scale as int, false) <= directed(value * Q, scale as int, true) <= 0x2000_0000_0000_0000_0000_0000_0000_0000,
{
    if scale == 0 {
        return Err(MathError::DivByZero);
    }
    let (magnitude, discarded) = match scaled_magnitude_to_q(value, scale) {
        Ok(pair) => pair,
        Err(error) => return Err(error),
    };
    proof {
        lemma_unsigned_entry(value as int, scale as int);
    }
    if magnitude > 0x7fff_ffff_ffff_ffff_ffff_ffff_ffff_ffff {
        return Err(MathError::Overflow);
    }
    let lower = magnitude as i128;
    let upper_magnitude = magnitude + if discarded { 1 } else { 0 };
    if upper_magnitude > 0x7fff_ffff_ffff_ffff_ffff_ffff_ffff_ffff {
        return Err(MathError::Overflow);
    }
    Ok((lower, upper_magnitude as i128))
}

} // verus!

verus! {

/// `2^s` as a double word.
pub fn pow2_u128(s: u32) -> (r: u128)
    requires
        s < 128,
    ensures
        r == pow2(s as nat),
        r > 0,
{
    if s < 64 {
        proof {
            vstd::bits::lemma_u64_pow2_no_overflow(s as nat);
            vstd::bits::lemma_u64_shl_is_mul(1, s as u64);
        }
        (1u64 << (s as u64)) as u128
    } else {
        let t = (s - 64) as u64;
        proof {
            vstd::bits::lemma_u64_pow2_no_overflow(t as nat);
            vstd::bits::lemma_u64_shl_is_mul(1, t);
            lemma_pow2_adds(t as nat, 64);
            vstd::arithmetic::power2::lemma2_to64_rest();
            lemma_mul_le(pow2(t as nat) as int, 0x1_0000_0000_0000_0000, u64::MAX as int, 0x1_0000_0000_0000_0000);
        }
        ((1u64 << t) as u128) * 0x1_0000_0000_0000_0000
    }
}

/// The saturation the Q61 exponent arithmetic applies: values at or beyond
/// `±EXPONENT_SATURATION` collapse onto it.
pub open spec fn saturate_exponent(v: int) -> int {
    if v >= EXPONENT_SATURATION {
        EXPONENT_SATURATION as int
    } else if v <= -EXPONENT_SATURATION {
        -EXPONENT_SATURATION
    } else {
        v
    }
}

/// The Q61 product `a * b / Q`, rounded toward positive infinity when `up`
/// and toward negative infinity otherwise, saturating at
/// `±EXPONENT_SATURATION`; a magnitude product beyond a double word
/// saturates with the product's sign.
pub open spec fn mul_signed_q_spec(a: int, b: int, up: bool) -> int {
    if crate::arith::abs_int(a) * crate::arith::abs_int(b) > u128::MAX {
        if (a < 0) != (b < 0) {
            -EXPONENT_SATURATION
        } else {
            EXPONENT_SATURATION as int
        }
    } else {
        saturate_exponent(directed(a * b, Q as int, up))
    }
}

/// The product of magnitudes is the product, up to its sign.
proof fn lemma_signed_product(a: int, b: int)
    ensures
        crate::arith::abs_int(a) * crate::arith::abs_int(b) == if (a < 0) != (b < 0) { -(a * b) } else { a * b },
        crate::arith::abs_int(a) * crate::arith::abs_int(b) >= 0,
{
    if a < 0 && b < 0 {
        assert((-a) * (-b) == a * b && (-a) * (-b) >= 0) by (nonlinear_arith)
            requires
                a < 0,
                b < 0,
        ;
    } else if a < 0 {
        assert((-a) * b == -(a * b) && (-a) * b >= 0) by (nonlinear_arith)
            requires
                a < 0,
                b >= 0,
        ;
    } else if b < 0 {
        assert(a * (-b) == -(a * b) && a * (-b) >= 0) by (nonlinear_arith)
            requires
                a >= 0,
                b < 0,
        ;
    } else {
        assert(a * b >= 0) by (nonlinear_arith)
            requires
                a >= 0,
                b >= 0,
        ;
    }
}

/// The signed Q61 product, as `mul_signed_q_spec` states it.
pub fn mul_signed_q<const UPPER: bool>(a: i128, b: i128) -> (r: i128)
    ensures
        r == mul_signed_q_spec(a as int, b as int, UPPER),
{
    let negative = (a < 0) != (b < 0);
    let a_mag = magnitude_i128(a);
    let b_mag = magnitude_i128(b);
    let ghost product = a_mag * b_mag;
    proof {
        lemma_signed_product(a as int, b as int);
        lemma_q_is_pow2();
    }
    let magnitude: u128 = if a_mag <= 0xFFFF_FFFF_FFFF_FFFF && b_mag <= 0xFFFF_FFFF_FFFF_FFFF {
        proof {
            lemma_mul_le(a_mag as int, b_mag as int, u64::MAX as int, u64::MAX as int);
        }
        if UPPER != negative {
            mul_q_unsigned::<true>(a_mag as u64, b_mag as u64)
        } else {
            mul_q_unsigned::<false>(a_mag as u64, b_mag as u64)
        }
    } else {
        if a_mag != 0 && b_mag > u128::MAX / a_mag {
            proof {
                lemma_div_mod(u128::MAX as int, a_mag as int);
                lemma_mul_le(a_mag as int, (u128::MAX / a_mag) as int + 1, a_mag as int, b_mag as int);
                assert(a_mag * ((u128::MAX / a_mag) as int + 1) > u128::MAX) by (nonlinear_arith)
                    requires
                        u128::MAX == (u128::MAX / a_mag) * a_mag + u128::MAX % a_mag,
                        u128::MAX % a_mag < a_mag,
                ;
            }
            return if negative { -EXPONENT_SATURATION } else { EXPONENT_SATURATION };
        }
        proof {
            if a_mag != 0 {
                lemma_div_mod(u128::MAX as int, a_mag as int);
                lemma_mul_le(a_mag as int, b_mag as int, a_mag as int, (u128::MAX / a_mag) as int);
                assert(a_mag * ((u128::MAX / a_mag) as int) <= u128::MAX) by (nonlinear_arith)
                    requires
                        u128::MAX == (u128::MAX / a_mag) * a_mag + u128::MAX % a_mag,
                        u128::MAX % a_mag >= 0,
                ;
            }
        }
        let product = a_mag * b_mag;
        proof {
            vstd::bits::lemma_u128_shr_is_div(product, 61);
            lemma_div_le(product as int, u128::MAX as int, Q as int);
        }
        let quotient = product >> 61u128;
        let discarded = product % 0x2000_0000_0000_0000 != 0;
        quotient + if discarded && UPPER != negative { 1 } else { 0 }
    };
    proof {
        let dir = UPPER != negative;
        lemma_directed(product, Q as int);
        if negative {
            crate::arith::lemma_directed_neg(product, Q as int, UPPER);
            assert(a * b == -product);
        }
        assert(magnitude == directed(product, Q as int, dir));
    }
    if magnitude >= 0x10_0000_0000_0000_0000 {
        return if negative { -EXPONENT_SATURATION } else { EXPONENT_SATURATION };
    }
    if negative {
        -(magnitude as i128)
    } else {
        magnitude as i128
    }
}

} // verus!

verus! {

/// `mantissa * 2^(exponent - 61)` raw units of `scale`, rounded up when
/// `up`; a zero scale is `DivByZero` and a result beyond a word is
/// `Overflow`.
pub open spec fn project_binary_spec(mantissa: int, exponent: int, scale: int, up: bool) -> Result<u64, MathError> {
    if scale == 0 {
        Err(MathError::DivByZero)
    } else {
        let value = if exponent >= 61 {
            mantissa * scale * pow2((exponent - 61) as nat)
        } else {
            directed(mantissa * scale, pow2((61 - exponent) as nat) as int, up)
        };
        if value > u64::MAX {
            Err(MathError::Overflow)
        } else {
            Ok(value as u64)
        }
    }
}

/// Projects the binary value `mantissa * 2^(exponent - 61)` onto `scale`
/// raw units with one directed rounding.
pub fn project_binary_unsigned<const UPPER: bool>(mantissa: u64, exponent: i128, scale: u64) -> (r: Result<u64, MathError>)
    requires
        exponent > i128::MIN + 61,
    ensures
        r == project_binary_spec(mantissa as int, exponent as int, scale as int, UPPER),
{
    if scale == 0 {
        return Err(MathError::DivByZero);
    }
    proof {
        lemma_mul_le(mantissa as int, scale as int, u64::MAX as int, u64::MAX as int);
    }
    let product = (mantissa as u128) * (scale as u128);
    if mantissa == 0 {
        proof {
            if exponent < 61 {
                lemma_pow2_pos((61 - exponent) as nat);
                lemma_div_unique(0, pow2((61 - exponent) as nat) as int, 0, 0);
            } else {
                assert(0 * pow2((exponent - 61) as nat) == 0);
            }
        }
        return Ok(0);
    }
    let shift = 61 - exponent;
    if shift <= 0 {
        let left = -shift;
        proof {
            assert(mantissa * scale >= 1) by (nonlinear_arith)
                requires
                    mantissa >= 1,
                    scale >= 1,
            ;
        }
        if product > 0xFFFF_FFFF_FFFF_FFFF || left >= 64 {
            proof {
                lemma_pow2_pos(left as nat);
                if left >= 64 {
                    if left > 64 {
                        lemma_pow2_strictly_increases(64, left as nat);
                    }
                    vstd::arithmetic::power2::lemma2_to64_rest();
                }
                lemma_mul_le(1, 1, mantissa * scale, pow2(left as nat) as int);
                assert(mantissa * scale * pow2(left as nat) > u64::MAX) by (nonlinear_arith)
                    requires
                        mantissa * scale > u64::MAX || pow2(left as nat) > u64::MAX,
                        mantissa * scale >= 1,
                        pow2(left as nat) >= 1,
                ;
            }
            return Err(MathError::Overflow);
        }
        let low = product as u64;
        let left = left as u64;
        proof {
            vstd::bits::lemma_u64_mul_pow2_le_max_iff_max_shr(low, left, u64::MAX);
        }
        if low > (u64::MAX >> left) {
            return Err(MathError::Overflow);
        }
        proof {
            vstd::bits::lemma_u64_shl_is_mul(low, left);
        }
        return Ok(low << left);
    }
    if shift >= 128 {
        proof {
            let p = pow2(shift as nat) as int;
            if shift > 128 {
                lemma_pow2_strictly_increases(128, shift as nat);
            }
            lemma_pow2_adds(64, 64);
            vstd::arithmetic::power2::lemma2_to64_rest();
            assert(pow2(128) == 0x1_0000_0000_0000_0000 * 0x1_0000_0000_0000_0000);
            assert(mantissa * scale < p);
            assert(mantissa * scale >= 1) by (nonlinear_arith)
                requires
                    mantissa >= 1,
                    scale >= 1,
            ;
            lemma_div_unique(mantissa * scale, p, 0, mantissa * scale);
            assert(directed(mantissa * scale, p, UPPER) == if UPPER { 1int } else { 0 });
        }
        return Ok(if UPPER { 1 } else { 0 });
    }
    let divisor = pow2_u128(shift as u32);
    let quotient = product / divisor;
    let discarded = product % divisor != 0;
    if quotient > 0xFFFF_FFFF_FFFF_FFFF {
        proof {
            lemma_directed(mantissa * scale, divisor as int);
        }
        return Err(MathError::Overflow);
    }
    let quotient = quotient as u64;
    let rounded = if UPPER && discarded {
        if quotient == u64::MAX {
            return Err(MathError::Overflow);
        }
        quotient + 1
    } else {
        quotient
    };
    Ok(rounded)
}

/// The signed Q61 value `value` as raw units of `scale`, rounded toward
/// positive infinity when `up`; a zero scale is `DivByZero` and a result
/// outside `i64` is `Overflow`.
pub open spec fn project_signed_spec(value: int, scale: int, up: bool) -> Result<i64, MathError> {
    if scale == 0 {
        Err(MathError::DivByZero)
    } else {
        let projected = directed(value * scale, Q as int, up);
        if i64::MIN <= projected <= i64::MAX {
            Ok(projected as i64)
        } else {
            Err(MathError::Overflow)
        }
    }
}

/// Projects a signed Q61 value onto `scale` raw units with one directed
/// rounding, splitting it into whole and fractional parts.
pub fn project_signed_q<const UPPER: bool>(value: i128, scale: u64) -> (r: Result<i64, MathError>)
    ensures
        r == project_signed_spec(value as int, scale as int, UPPER),
{
    if scale == 0 {
        return Err(MathError::DivByZero);
    }
    let negative = value < 0;
    let magnitude = magnitude_i128(value);
    let ghost dir = UPPER != negative;
    let ghost m = magnitude as int;
    let ghost s = scale as int;
    let ghost q = Q as int;
    proof {
        lemma_q_is_pow2();
        vstd::bits::lemma_u128_shr_is_div(magnitude, 61);
        lemma_div_mod(m, q);
        lemma_div_mod(m * s, q);
        lemma_directed(m * s, q);
        assert(m * s >= 0) by (nonlinear_arith)
            requires
                m >= 0,
                s >= 0,
        ;
        // directed(value * scale, Q, up) is the signed image of the magnitude's.
        if negative {
            assert(value * s == -(m * s)) by (nonlinear_arith)
                requires
                    m == -value,
            ;
            crate::arith::lemma_directed_neg(m * s, q, UPPER);
        } else {
            assert(value * s == m * s);
        }
    }
    let whole_wide = magnitude >> 61u128;
    let fraction = (magnitude % 0x2000_0000_0000_0000) as u64;
    let ghost total = directed(m * s, q, dir);
    let ghost w = whole_wide as int;
    let ghost f = fraction as int;
    proof {
        // m * s == (w * s) * Q + f * s, so the quotient splits.
        assert(m * s == (w * s) * q + f * s) by (nonlinear_arith)
            requires
                m == w * q + f,
        ;
        lemma_div_mod(f * s, q);
        lemma_div_unique(m * s, q, w * s + (f * s) / q, (f * s) % q);
        assert(w * s >= 0 && f * s >= 0) by (nonlinear_arith)
            requires
                w >= 0,
                f >= 0,
                s >= 0,
        ;
        assert(total == w * s + (f * s) / q + (if dir && (f * s) % q != 0 { 1int } else { 0 }));
        lemma_div_le(f * s, f * s, q);
        assert((f * s) / q >= 0) by {
            vstd::arithmetic::div_mod::lemma_div_pos_is_pos(f * s, q);
        }
    }
    if whole_wide > 0xFFFF_FFFF_FFFF_FFFF {
        proof {
            lemma_mul_le(0x1_0000_0000_0000_0000, 1, w, s);
        }
        return Err(MathError::Overflow);
    }
    let whole = whole_wide as u64;
    let integer_raw = match whole.checked_mul(scale) {
        Some(raw) => raw,
        None => return Err(MathError::Overflow),
    };
    proof {
        lemma_mul_le(f, s, q - 1, u64::MAX as int);
        lemma_div_le(f * s, (q - 1) * (u64::MAX as int), q);
    }
    let product = (fraction as u128) * (scale as u128);
    let fraction_raw = (product / 0x2000_0000_0000_0000) as u64;
    let discarded = product % 0x2000_0000_0000_0000 != 0;
    let sum = match integer_raw.checked_add(fraction_raw) {
        Some(sum) => sum,
        None => return Err(MathError::Overflow),
    };
    let total_raw = if UPPER != negative && discarded {
        match sum.checked_add(1) {
            Some(total_raw) => total_raw,
            None => return Err(MathError::Overflow),
        }
    } else {
        sum
    };
    proof {
        assert(total_raw == total);
    }
    if negative {
        if total_raw > 0x8000_0000_0000_0000 {
            return Err(MathError::Overflow);
        }
        if total_raw == 0x8000_0000_0000_0000 {
            Ok(i64::MIN)
        } else {
            Ok(-(total_raw as i64))
        }
    } else {
        if total_raw > 0x7FFF_FFFF_FFFF_FFFF {
            return Err(MathError::Overflow);
        }
        Ok(total_raw as i64)
    }
}

} // verus!

verus! {

/// `value * 2^(63 - integer) / scale` and its remainder, for a quotient
/// that fits a word.
pub fn normalize_division(value: u64, scale: u64, integer: i32) -> (r: (u64, u64))
    requires
        scale > 0,
        -64 <= integer <= 63,
        value * pow2((63 - integer) as nat) < scale * word(),
    ensures
        r.0 == (value * pow2((63 - integer) as nat)) / (scale as int),
        r.1 == (value * pow2((63 - integer) as nat)) % (scale as int),
{
    let shift = (63 - integer) as u32;
    let power = pow2_u128(shift);
    proof {
        lemma_mul_le(scale as int, word(), u64::MAX as int, word());
    }
    let numerator = (value as u128) * power;
    proof {
        vstd::bits::lemma_u128_shr_is_div(numerator, 64);
        vstd::arithmetic::power2::lemma2_to64_rest();
        lemma_div_mod(numerator as int, word());
        lemma_div_lt_iff(numerator as int, word(), scale as int);
    }
    let high = (numerator >> 64u128) as u64;
    let low = (numerator % 0x1_0000_0000_0000_0000) as u64;
    if high == 0 {
        (low / scale, low % scale)
    } else {
        div_rem_128_by_64(high, low, scale)
    }
}

/// The normalized Q63 mantissa `value * 2^(63 - integer) / scale`, rounded
/// up when `up`; a rounding that reaches `2^64` becomes `2^63` with a carry
/// into the exponent.
pub open spec fn normalize_q63_spec(value: int, scale: int, integer: int, up: bool) -> (u64, bool) {
    let rounded = directed(value * pow2((63 - integer) as nat), scale, up);
    if rounded > u64::MAX {
        (0x8000_0000_0000_0000, true)
    } else {
        (rounded as u64, false)
    }
}

/// `quotient + 1`, or `2^63` with a carry when the word is full.
pub fn round_up_q63(quotient: u64) -> (r: (u64, bool))
    ensures
        quotient < u64::MAX ==> r == ((quotient + 1) as u64, false),
        quotient == u64::MAX ==> r == (0x8000_0000_0000_0000u64, true),
{
    match quotient.checked_add(1) {
        Some(rounded) => (rounded, false),
        None => (0x8000_0000_0000_0000, true),
    }
}

/// The Q63 normalization of `value / scale`, as `normalize_q63_spec`
/// states it.
pub fn normalize_unsigned_q63<const UPPER: bool>(value: u64, scale: u64, integer: i32) -> (r: (u64, bool))
    requires
        scale > 0,
        -64 <= integer <= 63,
        value * pow2((63 - integer) as nat) < scale * word(),
    ensures
        r == normalize_q63_spec(value as int, scale as int, integer as int, UPPER),
{
    let (quotient, remainder) = normalize_division(value, scale, integer);
    proof {
        lemma_directed(value * pow2((63 - integer) as nat), scale as int);
    }
    if UPPER && remainder != 0 {
        round_up_q63(quotient)
    } else {
        (quotient, false)
    }
}

/// Both directed normalizations from one division.
pub fn normalize_unsigned_q63_bounds(value: u64, scale: u64, integer: i32) -> (r: ((u64, bool), (u64, bool)))
    requires
        scale > 0,
        -64 <= integer <= 63,
        value * pow2((63 - integer) as nat) < scale * word(),
    ensures
        r.0 == normalize_q63_spec(value as int, scale as int, integer as int, false),
        r.1 == normalize_q63_spec(value as int, scale as int, integer as int, true),
{
    let (quotient, remainder) = normalize_division(value, scale, integer);
    proof {
        lemma_directed(value * pow2((63 - integer) as nat), scale as int);
    }
    let upper = if remainder != 0 {
        round_up_q63(quotient)
    } else {
        (quotient, false)
    };
    ((quotient, false), upper)
}

} // verus!
