//! Oracle price scaling.
use crate::arith::{ceil_div, lemma_div_le, lemma_div_lt_iff, lemma_div_mod, lemma_div_unique, lemma_mul_le, pow10, two_words, word};
use crate::error::MathError;
use crate::kernel::wide::{ceil_from_quotient_remainder, div_rem_wide_quotient, mul_div, widening_mul, FixedDivisor};
use vstd::arithmetic::power2::{lemma_pow2_pos, pow2};
use vstd::prelude::*;

verus! {

/// Every exact power of ten a `u128` can hold.
pub const POW10: [u128; 39] = [
    1, 10, 100, 1000, 10000, 100000, 1000000, 10000000, 100000000, 1000000000,
    10000000000, 100000000000, 1000000000000, 10000000000000, 100000000000000,
    1000000000000000, 10000000000000000, 100000000000000000, 1000000000000000000,
    10000000000000000000, 100000000000000000000, 1000000000000000000000,
    10000000000000000000000, 100000000000000000000000, 1000000000000000000000000,
    10000000000000000000000000, 100000000000000000000000000, 1000000000000000000000000000,
    10000000000000000000000000000, 100000000000000000000000000000,
    1000000000000000000000000000000, 10000000000000000000000000000000,
    100000000000000000000000000000000, 1000000000000000000000000000000000,
    10000000000000000000000000000000000, 100000000000000000000000000000000000,
    1000000000000000000000000000000000000, 10000000000000000000000000000000000000,
    100000000000000000000000000000000000000,
];

proof fn lemma_pow10_table(k: int)
    requires
        0 <= k < 39,
    ensures
        POW10[k] == pow10(k as nat),
{
    reveal_with_fuel(pow10, 40);
    assert(POW10[k] == pow10(k as nat));
}

/// The floor of `lower * output_scale * 10^expo` and the ceiling of
/// `upper * output_scale * 10^expo`, or `Overflow` when the upper bound does
/// not fit a word.
pub open spec fn scaled_bounds(lower: int, upper: int, expo: int, output_scale: int) -> Result<(u64, u64), MathError> {
    let low_bound = if expo >= 0 {
        lower * output_scale * pow10(expo as nat)
    } else {
        (lower * output_scale) / (pow10((-expo) as nat) as int)
    };
    let high_bound = if expo >= 0 {
        upper * output_scale * pow10(expo as nat)
    } else {
        ceil_div(upper * output_scale, pow10((-expo) as nat) as int)
    };
    if high_bound > u64::MAX {
        Err(MathError::Overflow)
    } else {
        Ok((low_bound as u64, high_bound as u64))
    }
}

/// The outward bounds on `(price -/+ confidence) * output_scale * 10^expo`,
/// the lower price floored at zero.
pub open spec fn price_bounds_result(price: i64, confidence: u64, expo: i32, output_scale: u64) -> Result<(u64, u64), MathError> {
    if output_scale == 0 {
        Err(MathError::DivByZero)
    } else if price < 0 {
        Err(MathError::OutOfDomain)
    } else {
        scaled_bounds(
            if price >= confidence { price - confidence } else { 0 },
            price + confidence,
            expo as int,
            output_scale as int,
        )
    }
}

fn to_u64(value: u128) -> (r: Result<u64, MathError>)
    ensures
        value <= u64::MAX ==> r == Ok::<u64, MathError>(value as u64),
        value > u64::MAX ==> r == Err::<u64, MathError>(MathError::Overflow),
{
    if value <= 0xffff_ffff_ffff_ffff {
        Ok(value as u64)
    } else {
        Err(MathError::Overflow)
    }
}

/// A word product that must fit a word: two-word multiply, top word rejects.
fn word_product(a: u64, b: u64) -> (r: Result<u64, MathError>)
    ensures
        a * b <= u64::MAX ==> r == Ok::<u64, MathError>((a * b) as u64),
        a * b > u64::MAX ==> r == Err::<u64, MathError>(MathError::Overflow),
{
    let (high, low) = widening_mul(a, b);
    if high != 0 {
        return Err(MathError::Overflow);
    }
    Ok(low)
}

/// The three words of `value * scale`, most significant first.
fn product_limbs(value: u128, scale: u64) -> (r: [u64; 3])
    ensures
        r[0] * word() * word() + r[1] * word() + r[2] == value * scale,
{
    let value_low = value as u64;
    let value_high = value >> 64;
    proof {
        assert(value == value_high * 0x1_0000_0000_0000_0000u128 + (value_low as u128) && value_high < 0x1_0000_0000_0000_0000u128) by (bit_vector)
            requires
                value_low == value as u64,
                value_high == value >> 64u128,
        ;
        lemma_mul_le(value_low as int, scale as int, u64::MAX as int, u64::MAX as int);
        lemma_mul_le(value_high as int, scale as int, u64::MAX as int, u64::MAX as int);
    }
    let low_product = (value_low as u128) * (scale as u128);
    proof {
        assert(low_product >> 64u128 <= 0xffff_ffff_ffff_fffe) by (bit_vector)
            requires
                low_product <= 0xffff_ffff_ffff_fffe_0000_0000_0000_0001u128,
        ;
    }
    let upper_product = value_high * (scale as u128) + (low_product >> 64);
    let r = [(upper_product >> 64) as u64, upper_product as u64, low_product as u64];
    proof {
        assert(low_product == (low_product >> 64u128) * 0x1_0000_0000_0000_0000u128 + ((low_product as u64) as u128)) by (bit_vector);
        assert(upper_product == ((upper_product >> 64u128) as u64) * 0x1_0000_0000_0000_0000u128 + ((upper_product as u64) as u128)) by (bit_vector);
        let w = word();
        assert(r[0] * w * w + r[1] * w + r[2] == value * scale) by (nonlinear_arith)
            requires
                value == value_high * w + value_low,
                low_product == value_low * scale,
                upper_product == value_high * scale + (low_product >> 64u128),
                low_product == (low_product >> 64u128) * w + r[2],
                upper_product == r[0] * w + r[1],
                w == 0x1_0000_0000_0000_0000,
        ;
    }
    r
}

} // verus!

verus! {

/// `n / d` rounded down, or up when `round_up`.
pub open spec fn directed_quotient(n: int, d: int, round_up: bool) -> int {
    if round_up {
        ceil_div(n, d)
    } else {
        n / d
    }
}

/// The directed quotient as a word, or `Overflow`.
pub open spec fn directed_word(n: int, d: int, round_up: bool) -> Result<u64, MathError> {
    if directed_quotient(n, d, round_up) > u64::MAX {
        Err(MathError::Overflow)
    } else {
        Ok(directed_quotient(n, d, round_up) as u64)
    }
}

/// A directed quotient of a nonnegative ratio is nonnegative, and the
/// ceiling is the floor plus one exactly for an inexact division.
proof fn lemma_directed_quotient(n: int, d: int)
    requires
        n >= 0,
        d > 0,
    ensures
        n / d >= 0,
        ceil_div(n, d) >= n / d,
        ceil_div(n, d) <= n / d + 1,
{
    lemma_div_mod(n, d);
}

/// `value * scale / (first * second)` where the divisor pair covers a
/// beyond-word power of ten: the nested floors divide by the product
/// exactly, in word divisions.
fn staged_quotient(value: u64, scale: u64, first: u64, second: u64, round_up: bool) -> (r: Result<u64, MathError>)
    requires
        first > 0,
        second > 0,
    ensures
        r == directed_word(value * scale, first * second, round_up),
{
    let (high, low) = widening_mul(value, scale);
    let (stage_high, stage_low, first_remainder) = div_rem_wide_quotient(high, low, first);
    let (quotient_high, quotient_low, second_remainder) = div_rem_wide_quotient(stage_high, stage_low, second);
    let ghost n = value * scale;
    let ghost d = first * second;
    proof {
        lemma_mul_le(1, 1, first as int, second as int);
        let stage = two_words(stage_high, stage_low);
        let q = two_words(quotient_high, quotient_low);
        lemma_div_mod(n, first as int);
        lemma_div_mod(stage, second as int);
        vstd::arithmetic::div_mod::lemma_div_denominator(n, first as int, second as int);
        // n = q * d + (second_remainder * first + first_remainder).
        assert(n == q * d + (second_remainder * first + first_remainder)) by (nonlinear_arith)
            requires
                n == stage * first + first_remainder,
                stage == q * second + second_remainder,
                d == first * second,
        ;
        lemma_mul_le(second_remainder as int, first as int, second - 1, first as int);
        assert(second_remainder * first + first_remainder < d) by (nonlinear_arith)
            requires
                second_remainder * first <= (second - 1) * first,
                first_remainder < first,
                d == first * second,
        ;
        lemma_div_unique(n, d, q, second_remainder * first + first_remainder);
        lemma_directed_quotient(n, d);
        assert(quotient_high != 0 <==> q > u64::MAX);
        if second_remainder * first + first_remainder == 0 {
            assert(second_remainder == 0) by (nonlinear_arith)
                requires
                    second_remainder * first == 0,
                    first > 0,
            ;
        }
    }
    let ghost expected = directed_word(value * scale, first * second, round_up);
    if quotient_high != 0 {
        return Err(MathError::Overflow);
    }
    if round_up {
        let inexact = (if first_remainder != 0 { 1u64 } else { 0u64 }) | second_remainder;
        proof {
            let b = if first_remainder != 0 { 1u64 } else { 0u64 };
            assert((b | second_remainder) == 0 <==> b == 0 && second_remainder == 0) by (bit_vector);
            assert((inexact == 0) == (n % d == 0));
        }
        let result = ceil_from_quotient_remainder(quotient_low, inexact);
        proof {
            if inexact == 0 {
                assert(result == expected);
            } else if quotient_low == u64::MAX {
                assert(result == expected);
            } else {
                assert(result == expected);
            }
        }
        result
    } else {
        Ok(quotient_low)
    }
}

/// The value of the first `i` limbs, most significant first.
pub open spec fn limbs_prefix(limbs: [u64; 3], i: int) -> int
    decreases i,
{
    if i <= 0 {
        0
    } else {
        limbs_prefix(limbs, i - 1) * word() + limbs[i - 1]
    }
}

/// Splits `value * scale` into three limbs and divides them by the shared
/// prepared divisor.
fn scaled_quotient_word(value: u128, scale: u64, divisor: &FixedDivisor, round_up: bool) -> (r: Result<u64, MathError>)
    requires
        divisor.wf(),
    ensures
        r == directed_word(value * scale, divisor.divisor() as int, round_up),
{
    let limbs = product_limbs(value, scale);
    let ghost d = divisor.divisor() as int;
    let ghost n = value * scale;
    proof {
        divisor.lemma_divisor_nonzero();
        reveal_with_fuel(limbs_prefix, 4);
        assert(limbs_prefix(limbs, 3) == n) by (nonlinear_arith)
            requires
                limbs_prefix(limbs, 3) == ((0 * word() + limbs[0]) * word() + limbs[1]) * word() + limbs[2],
                limbs[0] * word() * word() + limbs[1] * word() + limbs[2] == n,
        ;
        lemma_mul_le(value as int, scale as int, value as int, scale as int);
        lemma_directed_quotient(n, d);
    }
    let mut quotient: u64 = 0;
    let mut remainder: u64 = 0;
    let mut index: usize = 0;
    while index < 3
        invariant
            divisor.wf(),
            d == divisor.divisor() as int,
            d > 0,
            n == limbs_prefix(limbs, 3),
            n == value * scale,
            n >= 0,
            0 <= index <= 3,
            remainder < d,
            index < 3 ==> remainder == limbs_prefix(limbs, index as int),
            index == 3 ==> limbs_prefix(limbs, 3) == quotient * d + remainder,
        decreases 3 - index,
    {
        let (next_quotient, next_remainder) = divisor.div_rem_valid(remainder, limbs[index]);
        proof {
            reveal_with_fuel(limbs_prefix, 2);
            lemma_div_mod(two_words(remainder, limbs[index as int]), d);
            assert(two_words(remainder, limbs[index as int]) == next_quotient * d + next_remainder);
            assert(limbs_prefix(limbs, index + 1) == limbs_prefix(limbs, index as int) * word() + limbs[index as int]);
            if index == 2 {
                assert(limbs_prefix(limbs, 3) == two_words(remainder, limbs[2]));
            } else {
                assert(limbs_prefix(limbs, index + 1) == two_words(remainder, limbs[index as int]));
            }
        }
        if index != 2 && next_quotient != 0 {
            proof {
                lemma_prefix_overflows(limbs, index as int, d, next_quotient as int, next_remainder as int);
            }
            return Err(MathError::Overflow);
        }
        let ghost old_index = index as int;
        proof {
            if old_index < 2 {
                let tw = two_words(remainder, limbs[old_index]);
                assert(tw == next_remainder) by (nonlinear_arith)
                    requires
                        tw == next_quotient * d + next_remainder,
                        next_quotient == 0,
                ;
                assert(limbs_prefix(limbs, old_index + 1) == next_remainder);
            }
        }
        quotient = next_quotient;
        remainder = next_remainder;
        index = index + 1;
        proof {
            assert(index as int == old_index + 1);
        }
    }
    proof {
        lemma_div_unique(n, d, quotient as int, remainder as int);
    }
    if round_up {
        ceil_from_quotient_remainder(quotient, remainder)
    } else {
        Ok(quotient)
    }
}

/// A nonzero quotient digit before the last limb puts the whole quotient at
/// a word or more.
proof fn lemma_prefix_overflows(limbs: [u64; 3], index: int, d: int, q: int, r: int)
    requires
        0 <= index < 2,
        d > 0,
        q >= 1,
        0 <= r < d,
        limbs_prefix(limbs, index + 1) == q * d + r,
    ensures
        limbs_prefix(limbs, 3) / d > u64::MAX,
        ceil_div(limbs_prefix(limbs, 3), d) > u64::MAX,
{
    reveal_with_fuel(limbs_prefix, 4);
    let w = word();
    let p = limbs_prefix(limbs, index + 1);
    lemma_mul_le(1, d, q, d);
    assert(p >= d);
    let n = limbs_prefix(limbs, 3);
    if index == 0 {
        assert(n == (p * w + limbs[1]) * w + limbs[2]);
        lemma_mul_le(d, w * w, p, w * w);
        assert(n >= d * w) by (nonlinear_arith)
            requires
                n == (p * w + limbs[1]) * w + limbs[2],
                d * (w * w) <= p * (w * w),
                limbs[1] >= 0,
                limbs[2] >= 0,
                w > 1,
                d > 0,
        ;
    } else {
        assert(n == p * w + limbs[2]);
        lemma_mul_le(d, w, p, w);
    }
    lemma_div_lt_iff(n, d, w);
    lemma_directed_quotient(n, d);
}

} // verus!

verus! {

/// The processed prefix of a bit-serial walk never exceeds the whole value.
proof fn lemma_partial_prefix_le(limbs: [u64; 3], index: int, bit_index: nat)
    requires
        0 <= index < 3,
        bit_index <= 64,
    ensures
        limbs_prefix(limbs, index) * pow2((64 - bit_index) as nat) + (limbs[index] as int) / (pow2(bit_index) as int)
            <= limbs_prefix(limbs, 3),
{
    reveal_with_fuel(limbs_prefix, 4);
    let p = limbs_prefix(limbs, index);
    let low = pow2(bit_index) as int;
    let high = pow2((64 - bit_index) as nat) as int;
    lemma_pow2_pos(bit_index);
    lemma_pow2_pos((64 - bit_index) as nat);
    vstd::arithmetic::power2::lemma_pow2_adds((64 - bit_index) as nat, bit_index);
    vstd::arithmetic::power2::lemma2_to64_rest();
    assert(high * low == word());
    let limb = limbs[index] as int;
    lemma_div_mod(limb, low);
    let x = p * high + limb / low;
    assert(p >= 0) by {
        lemma_prefix_nonneg(limbs, index);
    }
    assert(x * low <= p * word() + limb) by (nonlinear_arith)
        requires
            x == p * high + limb / low,
            limb == (limb / low) * low + limb % low,
            limb % low >= 0,
            high * low == word(),
    ;
    assert(x <= x * low) by (nonlinear_arith)
        requires
            x >= 0,
            low >= 1,
    ;
    assert(x >= 0) by (nonlinear_arith)
        requires
            p >= 0,
            high >= 1,
            limb / low >= 0,
            x == p * high + limb / low,
    ;
    lemma_prefix_monotone(limbs, index + 1);
}

proof fn lemma_prefix_nonneg(limbs: [u64; 3], i: int)
    ensures
        limbs_prefix(limbs, i) >= 0,
    decreases i,
{
    if i > 0 {
        lemma_prefix_nonneg(limbs, i - 1);
        let p = limbs_prefix(limbs, i - 1);
        assert(p * word() >= 0) by (nonlinear_arith)
            requires
                p >= 0,
        ;
    }
}

proof fn lemma_prefix_monotone(limbs: [u64; 3], i: int)
    requires
        0 <= i <= 3,
    ensures
        limbs_prefix(limbs, i) <= limbs_prefix(limbs, 3),
    decreases 3 - i,
{
    if i < 3 {
        lemma_prefix_monotone(limbs, i + 1);
        lemma_prefix_nonneg(limbs, i);
        let p = limbs_prefix(limbs, i);
        assert(p <= p * word() + limbs[i]) by (nonlinear_arith)
            requires
                p >= 0,
        ;
    }
}

/// The bit-serial fallback for denominators beyond one word: long division
/// of the three-limb product one bit at a time.
fn scaled_quotient_wide(value: u128, scale: u64, denominator: u128, round_up: bool) -> (r: Result<u64, MathError>)
    requires
        0 < denominator < 0x8000_0000_0000_0000_0000_0000_0000_0000u128,
    ensures
        r == directed_word(value * scale, denominator as int, round_up),
{
    let limbs = product_limbs(value, scale);
    let ghost n = value * scale;
    let ghost d = denominator as int;
    proof {
        reveal_with_fuel(limbs_prefix, 4);
        assert(limbs_prefix(limbs, 3) == n) by (nonlinear_arith)
            requires
                limbs_prefix(limbs, 3) == ((0 * word() + limbs[0]) * word() + limbs[1]) * word() + limbs[2],
                limbs[0] * word() * word() + limbs[1] * word() + limbs[2] == n,
        ;
        lemma_prefix_nonneg(limbs, 3);
        lemma_directed_quotient(n, d);
    }
    let mut quotient: u128 = 0;
    let mut remainder: u128 = 0;
    let mut index: usize = 0;
    let ghost mut processed: int = 0;
    while index < 3
        invariant
            0 < d < 0x8000_0000_0000_0000_0000_0000_0000_0000,
            d == denominator as int,
            n == value * scale,
            n == limbs_prefix(limbs, 3),
            n >= 0,
            0 <= index <= 3,
            processed == limbs_prefix(limbs, index as int),
            quotient * d + remainder == processed,
            remainder < d,
        decreases 3 - index,
    {
        let limb = limbs[index];
        let mut bit_index: u64 = 64;
        proof {
            vstd::arithmetic::power2::lemma2_to64();
            vstd::arithmetic::power2::lemma2_to64_rest();
            assert(processed == limbs_prefix(limbs, index as int) * pow2(0) + (limb as int) / (pow2(64) as int));
        }
        while bit_index > 0
            invariant
                0 < d < 0x8000_0000_0000_0000_0000_0000_0000_0000,
                d == denominator as int,
                n == value * scale,
                n == limbs_prefix(limbs, 3),
                0 <= index < 3,
                limb == limbs[index as int],
                bit_index <= 64,
                processed == limbs_prefix(limbs, index as int) * pow2((64 - bit_index) as nat) + (limb as int) / (pow2(bit_index as nat) as int),
                quotient * d + remainder == processed,
                remainder < d,
            decreases bit_index,
        {
            bit_index -= 1;
            let bit = (limb >> bit_index) & 1;
            let ghost old_processed = processed;
            proof {
                vstd::bits::lemma_u64_shr_is_div(limb, bit_index);
                assert((limb >> bit_index) & 1 == (limb >> bit_index) % 2) by (bit_vector);
                lemma_pow2_pos(bit_index as nat);
                vstd::arithmetic::power2::lemma_pow2_unfold((bit_index + 1) as nat);
                vstd::arithmetic::power2::lemma_pow2_unfold((64 - bit_index) as nat);
                vstd::arithmetic::div_mod::lemma_div_denominator(limb as int, pow2(bit_index as nat) as int, 2);
                let t = (limb as int) / (pow2(bit_index as nat) as int);
                lemma_div_mod(t, 2);
                processed = 2 * old_processed + bit;
                assert(processed == limbs_prefix(limbs, index as int) * pow2((64 - bit_index) as nat) + t) by (nonlinear_arith)
                    requires
                        old_processed == limbs_prefix(limbs, index as int) * pow2((64 - (bit_index + 1)) as nat) + t / 2,
                        pow2((64 - bit_index) as nat) == 2 * pow2((64 - (bit_index + 1)) as nat),
                        t == (t / 2) * 2 + t % 2,
                        bit == t % 2,
                        processed == 2 * old_processed + bit,
                ;
                assert((remainder << 1u128) | (bit as u128) == 2 * remainder + bit) by (bit_vector)
                    requires
                        remainder < 0x8000_0000_0000_0000_0000_0000_0000_0000u128,
                        bit <= 1,
                ;
                lemma_partial_prefix_le(limbs, index as int, bit_index as nat);
            }
            let ghost old_remainder = remainder as int;
            remainder = (remainder << 1) | (bit as u128);
            let quotient_bit: u128 = if remainder >= denominator { 1 } else { 0 };
            if quotient_bit != 0 {
                remainder -= denominator;
            }
            proof {
                assert((2 * quotient + quotient_bit) * d + remainder == processed) by (nonlinear_arith)
                    requires
                        quotient * d + old_remainder == old_processed,
                        remainder == 2 * old_remainder + bit - quotient_bit * d,
                        processed == 2 * old_processed + bit,
                ;
            }
            quotient = match quotient.checked_mul(2) {
                Some(doubled) => match doubled.checked_add(quotient_bit) {
                    Some(next) => next,
                    None => {
                        proof {
                            lemma_quotient_overflow(processed, n, d, 2 * quotient + quotient_bit, remainder as int);
                        }
                        return Err(MathError::Overflow);
                    },
                },
                None => {
                    proof {
                        lemma_quotient_overflow(processed, n, d, 2 * quotient + quotient_bit, remainder as int);
                    }
                    return Err(MathError::Overflow);
                },
            };
        }
        proof {
            vstd::arithmetic::power2::lemma2_to64();
            vstd::arithmetic::power2::lemma2_to64_rest();
            reveal_with_fuel(limbs_prefix, 2);
            assert(bit_index == 0);
            assert((limb as int) / (pow2(0) as int) == limb);
            assert(processed == limbs_prefix(limbs, index as int) * word() + limb);
            assert(processed == limbs_prefix(limbs, index + 1));
        }
        index += 1;
    }
    proof {
        lemma_div_unique(n, d, quotient as int, remainder as int);
    }
    if round_up && remainder != 0 {
        quotient = match quotient.checked_add(1) {
            Some(rounded) => rounded,
            None => return Err(MathError::Overflow),
        };
    }
    to_u64(quotient)
}

/// A running quotient beyond 128 bits means the whole quotient is beyond a
/// word.
proof fn lemma_quotient_overflow(processed: int, n: int, d: int, q: int, r: int)
    requires
        d > 0,
        processed <= n,
        q * d + r == processed,
        0 <= r,
        q > u64::MAX,
    ensures
        n / d > u64::MAX,
        ceil_div(n, d) > u64::MAX,
{
    lemma_div_unique(q * d, d, q, 0);
    lemma_div_le(q * d, n, d);
    lemma_directed_quotient(n, d);
}

} // verus!

verus! {

/// Bounds for a nonnegative decimal exponent: one word product per bound.
fn bounds_scaled_up(lower: u64, upper: u128, expo: i32, output_scale: u64) -> (r: Result<(u64, u64), MathError>)
    requires
        expo >= 0,
        output_scale > 0,
        lower <= upper,
    ensures
        r == scaled_bounds(lower as int, upper as int, expo as int, output_scale as int),
{
    let ghost lo = lower as int;
    let ghost hi = upper as int;
    let ghost os = output_scale as int;
    let ghost p = pow10(expo as nat) as int;
    proof {
        crate::arith::lemma_pow10_mono(0, expo as nat);
        lemma_mul_le(lo, os, hi, os);
        lemma_mul_le(lo * os, p, hi * os, p);
    }
    if upper == 0 {
        proof {
            assert(hi * os * p == 0 && lo * os * p == 0) by (nonlinear_arith)
                requires
                    hi == 0,
                    lo == 0,
            ;
        }
        return Ok((0, 0));
    }
    proof {
        lemma_mul_le(1, os, hi, os);
        lemma_mul_le(1, p, hi * os, p);
    }
    if expo > 38 {
        proof {
            crate::arith::lemma_pow10_mono(20, expo as nat);
            lemma_pow10_table(20);
        }
        return Err(MathError::Overflow);
    }
    proof {
        lemma_pow10_table(expo as int);
    }
    let factor = match to_u64(POW10[expo as usize]) {
        Ok(factor) => factor,
        Err(error) => return Err(error),
    };
    proof {
        assert(hi * os * p == hi * (p * os) && lo * os * p == lo * (p * os)) by (nonlinear_arith);
        lemma_mul_le(1, p * os, hi, p * os);
    }
    let scale_factor = match word_product(factor, output_scale) {
        Ok(scale_factor) => scale_factor,
        Err(error) => return Err(error),
    };
    proof {
        lemma_mul_le(lo, scale_factor as int, hi, scale_factor as int);
        lemma_mul_le(1, scale_factor as int, hi, scale_factor as int);
        lemma_mul_le(hi, 1, hi, scale_factor as int);
    }
    let lower_bound = match word_product(lower, scale_factor) {
        Ok(bound) => bound,
        Err(error) => return Err(error),
    };
    let upper_word = match to_u64(upper) {
        Ok(word) => word,
        Err(error) => return Err(error),
    };
    let upper_bound = match word_product(upper_word, scale_factor) {
        Ok(bound) => bound,
        Err(error) => return Err(error),
    };
    Ok((lower_bound, upper_bound))
}

/// Beyond `10^38` every bound of a three-word product rounds to zero or one.
proof fn lemma_tiny_scale(lo: int, hi: int, os: int, m: nat)
    requires
        m > 38,
        0 <= lo <= hi < 0x2_0000_0000_0000_0000,
        0 < os < 0x1_0000_0000_0000_0000,
    ensures
        scaled_bounds(lo, hi, -(m as int), os) == Ok::<(u64, u64), MathError>((0, if hi != 0 { 1 } else { 0 })),
{
    crate::arith::lemma_pow10_mono(39, m);
    lemma_pow10_table(38);
    assert(pow10(39) == 10 * pow10(38));
    let dd = pow10(m) as int;
    lemma_mul_le(hi, os, 0x2_0000_0000_0000_0000, 0x1_0000_0000_0000_0000);
    lemma_mul_le(lo, os, hi, os);
    lemma_div_unique(lo * os, dd, 0, lo * os);
    if hi == 0 {
        assert(hi * os == 0) by (nonlinear_arith)
            requires
                hi == 0,
        ;
        lemma_div_unique(0, dd, 0, 0);
    } else {
        lemma_mul_le(1, 1, hi, os);
        lemma_div_unique(hi * os, dd, 0, hi * os);
    }
    assert(-(-(m as int)) == m);
}

/// Bounds for a decimal divisor that fits a word.
fn bounds_word_divisor(lower: u64, upper: u128, word: u64, output_scale: u64) -> (r: Result<(u64, u64), MathError>)
    requires
        word > 0,
        output_scale > 0,
        lower <= upper,
    ensures
        r == (if ceil_div(upper * output_scale, word as int) > u64::MAX {
            Err(MathError::Overflow)
        } else {
            Ok((((lower * output_scale) / (word as int)) as u64, ceil_div(upper * output_scale, word as int) as u64))
        }),
{
    let ghost lo = lower as int;
    let ghost hi = upper as int;
    let ghost os = output_scale as int;
    let ghost dd = word as int;
    proof {
        lemma_mul_le(lo, os, hi, os);
        lemma_directed_quotient(lo * os, dd);
        lemma_directed_quotient(hi * os, dd);
        lemma_div_le(lo * os, hi * os, dd);
    }
    if output_scale % word == 0 {
        let factor = output_scale / word;
        proof {
            lemma_div_mod(os, dd);
            assert(lo * os == (lo * factor) * dd && hi * os == (hi * factor) * dd) by (nonlinear_arith)
                requires
                    os == factor * dd,
            ;
            lemma_div_unique(lo * os, dd, lo * factor, 0);
            lemma_div_unique(hi * os, dd, hi * factor, 0);
            lemma_mul_le(lo, factor as int, hi, factor as int);
            assert(factor >= 1) by (nonlinear_arith)
                requires
                    os == factor * dd,
                    os > 0,
                    dd > 0,
                    factor >= 0,
            ;
            lemma_mul_le(1, dd, factor as int, dd);
            lemma_mul_le(hi, 1, hi, factor as int);
        }
        let lower_bound = match word_product(lower, factor) {
            Ok(bound) => bound,
            Err(error) => return Err(error),
        };
        let upper_word = match to_u64(upper) {
            Ok(word) => word,
            Err(error) => return Err(error),
        };
        let upper_bound = match word_product(upper_word, factor) {
            Ok(bound) => bound,
            Err(error) => return Err(error),
        };
        return Ok((lower_bound, upper_bound));
    }
    let (lower_quotient, _) = match mul_div(lower, output_scale, word) {
        Ok(pair) => pair,
        Err(error) => return Err(error),
    };
    let upper_bound = if upper <= 0xffff_ffff_ffff_ffff {
        let (quotient, remainder) = match mul_div(upper as u64, output_scale, word) {
            Ok(pair) => pair,
            Err(error) => return Err(error),
        };
        match ceil_from_quotient_remainder(quotient, remainder) {
            Ok(bound) => bound,
            Err(error) => return Err(error),
        }
    } else {
        // Only a confidence-inflated bound beyond one word still needs the
        // three-limb pipeline.
        let divisor = match FixedDivisor::new(word) {
            Ok(divisor) => divisor,
            Err(error) => return Err(error),
        };
        match scaled_quotient_word(upper, output_scale, &divisor, true) {
            Ok(bound) => bound,
            Err(error) => return Err(error),
        }
    };
    Ok((lower_quotient, upper_bound))
}

/// A beyond-word power of ten splits into `10^19` and a second word factor.
proof fn lemma_split_beyond_word(m: nat)
    requires
        20 <= m <= 38,
    ensures
        pow10(m) == pow10(19) * pow10((m - 19) as nat),
        (pow10(m) as int) / (pow10(19) as int) == pow10((m - 19) as nat),
        pow10((m - 19) as nat) <= u64::MAX,
        pow10(19) <= u64::MAX,
        pow10(m) < 0x8000_0000_0000_0000_0000_0000_0000_0000,
{
    lemma_pow10_table(19);
    lemma_pow10_table(38);
    crate::arith::lemma_pow10_adds(19, (m - 19) as nat);
    crate::arith::lemma_pow10_mono((m - 19) as nat, 19);
    crate::arith::lemma_pow10_mono(m, 38);
    crate::arith::lemma_pow10_mono(0, (m - 19) as nat);
    lemma_div_unique(pow10(m) as int, pow10(19) as int, pow10((m - 19) as nat) as int, 0);
}

/// Returns outward integer bounds on a confidence-adjusted scaled price:
/// the floor of `(price - confidence) * output_scale * 10^expo`, floored at
/// zero, and the ceiling of `(price + confidence) * output_scale * 10^expo`.
///
/// A zero output scale is `DivByZero`, a negative price is `OutOfDomain`,
/// and an upper bound beyond a word is `Overflow`.
pub fn price_bounds_scaled(price: i64, confidence: u64, expo: i32, output_scale: u64) -> (r: Result<(u64, u64), MathError>)
    ensures
        r == price_bounds_result(price, confidence, expo, output_scale),
        r matches Ok((lower, upper)) ==> lower <= upper,
{
    if output_scale == 0 {
        return Err(MathError::DivByZero);
    }
    if price < 0 {
        return Err(MathError::OutOfDomain);
    }
    let price = price as u64;
    let lower = price.saturating_sub(confidence);
    let upper = (price as u128) + (confidence as u128);
    proof {
        lemma_bounds_ordered(lower as int, upper as int, expo as int, output_scale as int);
    }
    if expo >= 0 {
        return bounds_scaled_up(lower, upper, expo, output_scale);
    }
    let magnitude: u32 = (-(expo as i64)) as u32;
    if magnitude > 38 {
        proof {
            lemma_tiny_scale(lower as int, upper as int, output_scale as int, magnitude as nat);
        }
        return Ok((0, if upper != 0 { 1 } else { 0 }));
    }
    proof {
        lemma_pow10_table(magnitude as int);
    }
    let denominator = POW10[magnitude as usize];
    if denominator <= 0xffff_ffff_ffff_ffff {
        return bounds_word_divisor(lower, upper, denominator as u64, output_scale);
    }
    // A beyond-word power of ten splits into two word factors, so the staged
    // divider covers every word-sized price; the bit-serial walk survives
    // only for a bound beyond one word.
    proof {
        if magnitude <= 19 {
            crate::arith::lemma_pow10_mono(magnitude as nat, 19);
            lemma_pow10_table(19);
        }
        lemma_split_beyond_word(magnitude as nat);
        lemma_pow10_table(19);
    }
    let second = match to_u64(denominator / POW10[19]) {
        Ok(second) => second,
        Err(error) => return Err(error),
    };
    let first = match to_u64(POW10[19]) {
        Ok(first) => first,
        Err(error) => return Err(error),
    };
    proof {
        let dd = (first as int) * (second as int);
        lemma_mul_le(lower as int, output_scale as int, upper as int, output_scale as int);
        lemma_directed_quotient(lower * output_scale, dd);
        lemma_directed_quotient(upper * output_scale, dd);
        lemma_div_le(lower * output_scale, upper * output_scale, dd);
    }
    let lower_bound = match staged_quotient(lower, output_scale, first, second, false) {
        Ok(bound) => bound,
        Err(error) => return Err(error),
    };
    let upper_bound = if upper <= 0xffff_ffff_ffff_ffff {
        match staged_quotient(upper as u64, output_scale, first, second, true) {
            Ok(bound) => bound,
            Err(error) => return Err(error),
        }
    } else {
        match scaled_quotient_wide(upper, output_scale, denominator, true) {
            Ok(bound) => bound,
            Err(error) => return Err(error),
        }
    };
    Ok((lower_bound, upper_bound))
}

/// The lower bound never exceeds the upper bound, and an overflowing lower
/// bound means an overflowing upper bound.
proof fn lemma_bounds_ordered(lo: int, hi: int, expo: int, os: int)
    requires
        0 <= lo <= hi,
        os > 0,
    ensures
        scaled_bounds(lo, hi, expo, os) matches Ok((l, u)) ==> l <= u,
{
    lemma_mul_le(lo, os, hi, os);
    if expo >= 0 {
        crate::arith::lemma_pow10_mono(0, expo as nat);
        lemma_mul_le(lo * os, pow10(expo as nat) as int, hi * os, pow10(expo as nat) as int);
    } else {
        let dd = pow10((-expo) as nat) as int;
        crate::arith::lemma_pow10_mono(0, (-expo) as nat);
        lemma_directed_quotient(lo * os, dd);
        lemma_directed_quotient(hi * os, dd);
        lemma_div_le(lo * os, hi * os, dd);
    }
}

} // verus!
