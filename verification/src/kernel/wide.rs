//! Exact two-word multiplication and division.
use crate::arith::{ceil_div, half_word, lemma_div_lt_iff, lemma_div_mod, lemma_div_unique, lemma_mul_le, lemma_mul_split, two_words, word};
use crate::error::MathError;
use vstd::arithmetic::div_mod::*;
use vstd::arithmetic::mul::*;
use vstd::arithmetic::power2::{lemma_pow2_adds, lemma_pow2_pos, pow2};
use vstd::prelude::*;

verus! {

/// Splits a word into its high and low half-words.
proof fn lemma_halves(a: u64)
    ensures
        a >> 32u64 == a / 0x1_0000_0000,
        a & 0xffff_ffffu64 == a % 0x1_0000_0000,
        a == (a >> 32u64) * 0x1_0000_0000 + (a & 0xffff_ffffu64),
        a >> 32u64 < 0x1_0000_0000,
{
    assert(a >> 32u64 == a / 0x1_0000_0000) by (bit_vector);
    assert(a & 0xffff_ffffu64 == a % 0x1_0000_0000) by (bit_vector);
    lemma_div_mod(a as int, 0x1_0000_0000);
}

/// The exact product `a * b` as a two-word `(high, low)` pair.
pub fn widening_mul(a: u64, b: u64) -> (r: (u64, u64))
    ensures
        two_words(r.0, r.1) == a * b,
{
    proof {
        lemma_halves(a);
        lemma_halves(b);
    }
    let (a_high, a_low) = (a >> 32, a & 0xffff_ffff);
    let (b_high, b_low) = (b >> 32, b & 0xffff_ffff);
    proof {
        lemma_mul_le(a_low as int, b_low as int, 0xffff_ffff, 0xffff_ffff);
        lemma_mul_le(a_low as int, b_high as int, 0xffff_ffff, 0xffff_ffff);
        lemma_mul_le(a_high as int, b_low as int, 0xffff_ffff, 0xffff_ffff);
        lemma_mul_le(a_high as int, b_high as int, 0xffff_ffff, 0xffff_ffff);
    }
    let low_low = a_low * b_low;
    let low_high = a_low * b_high;
    let high_low = a_high * b_low;
    let high_high = a_high * b_high;
    proof {
        lemma_halves(low_low);
        lemma_halves(low_high);
        lemma_halves(high_low);
    }
    let middle = (low_low >> 32) + (low_high & 0xffff_ffff) + (high_low & 0xffff_ffff);
    proof {
        lemma_halves(middle);
    }
    // The native multiply already returns the exact low word; the partial
    // sums above survive only to produce the carry into the high word.
    let low = a.wrapping_mul(b);
    let high = high_high + (low_high >> 32) + (high_low >> 32) + (middle >> 32);
    proof {
        let h = half_word();
        lemma_mul_split(a as int, b as int, a_high as int, a_low as int, b_high as int, b_low as int, h);
        let ll0 = (low_low & 0xffff_ffffu64) as int;
        let m0 = (middle & 0xffff_ffffu64) as int;
        assert(a * b == high * word() + (m0 * h + ll0)) by (nonlinear_arith)
            requires
                a * b == (high_high as int) * (h * h) + ((low_high as int) + (high_low as int)) * h + low_low as int,
                low_low == (low_low >> 32u64) * h + ll0,
                low_high == (low_high >> 32u64) * h + (low_high & 0xffff_ffffu64),
                high_low == (high_low >> 32u64) * h + (high_low & 0xffff_ffffu64),
                middle == (middle >> 32u64) * h + m0,
                middle == (low_low >> 32u64) + (low_high & 0xffff_ffffu64) + (high_low & 0xffff_ffffu64),
                high == high_high + (low_high >> 32u64) + (high_low >> 32u64) + (middle >> 32u64),
                h == half_word(),
                word() == h * h,
        ;
        assert(0 <= m0 * h + ll0 < word()) by (nonlinear_arith)
            requires
                0 <= m0 < h,
                0 <= ll0 < h,
                h == half_word(),
                word() == h * h,
        ;
        lemma_div_unique(a * b, word(), high as int, m0 * h + ll0);
        assert(low == (a * b) % word());
    }
    (high, low)
}

} // verus!

verus! {

/// The exact top word of `a * b`.
pub fn multiply_high(a: u64, b: u64) -> (r: u64)
    ensures
        r == (a * b) / word(),
{
    let (high, low) = widening_mul(a, b);
    proof {
        lemma_div_unique(a * b, word(), high as int, low as int);
    }
    high
}

/// The top word of `a * b` from three partial products instead of four:
/// dropping the low-by-low partial and each cross product's masked half
/// loses at most two units of carry, so the result is the exact top word
/// minus `0`, `1` or `2`, never above it.
pub fn multiply_high_approx(a: u64, b: u64) -> (r: u64)
    ensures
        r <= (a * b) / word(),
        (a * b) / word() <= r + 2,
{
    proof {
        lemma_halves(a);
        lemma_halves(b);
    }
    let (a_high, a_low) = (a >> 32, a & 0xffff_ffff);
    let (b_high, b_low) = (b >> 32, b & 0xffff_ffff);
    proof {
        lemma_mul_le(a_low as int, b_low as int, 0xffff_ffff, 0xffff_ffff);
        lemma_mul_le(a_low as int, b_high as int, 0xffff_ffff, 0xffff_ffff);
        lemma_mul_le(a_high as int, b_low as int, 0xffff_ffff, 0xffff_ffff);
        lemma_mul_le(a_high as int, b_high as int, 0xffff_ffff, 0xffff_ffff);
        lemma_halves((a_low * b_low) as u64);
        lemma_halves((a_low * b_high) as u64);
        lemma_halves((a_high * b_low) as u64);
        let h = half_word();
        let hh = a_high * b_high;
        let lh = a_low * b_high;
        let hl = a_high * b_low;
        let ll = a_low * b_low;
        lemma_mul_split(a as int, b as int, a_high as int, a_low as int, b_high as int, b_low as int, h);
        let lh1 = lh / h;
        let hl1 = hl / h;
        let m = ll / h + lh % h + hl % h;
        lemma_div_mod(m, h);
        assert(a * b == (hh + lh1 + hl1 + m / h) * word() + ((m % h) * h + ll % h)) by (nonlinear_arith)
            requires
                a * b == hh * (h * h) + (lh + hl) * h + ll,
                lh == lh1 * h + lh % h,
                hl == hl1 * h + hl % h,
                ll == (ll / h) * h + ll % h,
                m == ll / h + lh % h + hl % h,
                m == (m / h) * h + m % h,
                h == half_word(),
                word() == h * h,
        ;
        lemma_div_mod(ll, h);
        assert(0 <= (m % h) * h + ll % h < word()) by (nonlinear_arith)
            requires
                0 <= m % h < h,
                0 <= ll % h < h,
                h == half_word(),
                word() == h * h,
        ;
        lemma_div_unique(a * b, word(), hh + lh1 + hl1 + m / h, (m % h) * h + ll % h);
        assert(0 <= m / h <= 2);
    }
    a_high * b_high + ((a_high * b_low) >> 32) + ((a_low * b_high) >> 32)
}

/// One 32-bit quotient digit of `(u_high * 2^32 + u_low) / normalized`.
///
/// A native division by the divisor's top half-word estimates the digit from
/// above, at most two too large for a normalized divisor; each loop pass
/// removes one overestimate. Once the running remainder of the estimate
/// reaches `2^32` the product comparison can never succeed again, so the
/// loop stops there.
fn divide_digit(u_high: u64, u_low: u64, normalized: u64) -> (r: (u64, u64))
    requires
        normalized >= 0x8000_0000_0000_0000,
        u_high < normalized,
        u_low < 0x1_0000_0000,
    ensures
        r.0 < 0x1_0000_0000,
        r.1 < normalized,
        r.0 * normalized + r.1 == u_high * 0x1_0000_0000 + u_low,
{
    let ghost h = half_word();
    let ghost n = u_high * h + u_low;
    let ghost q = n / (normalized as int);
    proof {
        lemma_halves(normalized);
        lemma_div_mod(n, normalized as int);
    }
    let top = normalized >> 32;
    let bottom = normalized & 0xffff_ffff;
    proof {
        assert(top >= 0x8000_0000);
        // The true digit fits a half-word and the first estimate bounds it.
        assert(q * normalized <= n);
        assert(q < h) by {
            lemma_div_lt_iff(n, normalized as int, h);
            assert(n < h * normalized) by (nonlinear_arith)
                requires
                    n == u_high * h + u_low,
                    u_high < normalized,
                    u_low < h,
                    h > 0,
            ;
        }
        assert(q * top <= u_high) by (nonlinear_arith)
            requires
                q * normalized <= n,
                n == u_high * h + u_low,
                normalized == top * h + bottom,
                u_low < h,
                q >= 0,
                bottom >= 0,
                h > 0,
        ;
        lemma_div_mod(u_high as int, top as int);
        let t = (u_high as int) / (top as int);
        if t < q {
            assert(u_high < (t + 1) * top) by (nonlinear_arith)
                requires
                    u_high == t * top + (u_high as int) % (top as int),
                    (u_high as int) % (top as int) < top,
            ;
            lemma_mul_le(t + 1, top as int, q, top as int);
        }
        assert((u_high as int) / (top as int) <= h + 1) by {
            lemma_div_lt_iff(u_high as int, top as int, h + 2);
            assert(u_high < (h + 2) * top) by (nonlinear_arith)
                requires
                    u_high < normalized,
                    normalized == top * h + bottom,
                    bottom < h,
                    top >= 0x8000_0000,
                    h == 0x1_0000_0000,
            ;
        }
    }
    let mut digit = u_high / top;
    let mut rest = u_high % top;
    proof {
        assert((rest << 32u64) == rest * 0x1_0000_0000 && ((rest << 32u64) | u_low) == (rest << 32u64) + u_low) by (bit_vector)
            requires
                rest < 0x1_0000_0000,
                u_low < 0x1_0000_0000,
        ;
        if digit < h {
            lemma_mul_le(digit as int, bottom as int, h - 1, h - 1);
        }
    }
    while digit >= 0x1_0000_0000 || digit * bottom > ((rest << 32) | u_low)
        invariant_except_break
            rest < 0x1_0000_0000,
            ((rest << 32u64) | u_low) == rest * h + u_low,
        invariant
            digit < h ==> digit * bottom < word(),
            digit * top + rest == u_high,
            q <= digit <= h + 1,
            q < h,
            q * normalized <= n,
            n == u_high * h + u_low,
            q == n / (normalized as int),
            h == half_word(),
            top >= 0x8000_0000,
            top < 0x1_0000_0000,
            bottom < 0x1_0000_0000,
            normalized == top * h + bottom,
            u_low < 0x1_0000_0000,
            normalized >= 0x8000_0000_0000_0000,
            u_high < normalized,
        ensures
            digit * top + rest == u_high,
            q <= digit <= h + 1,
            (digit < h && digit * bottom <= rest * h + u_low) || (rest >= h),
        decreases digit,
    {
        proof {
            if digit < 0x1_0000_0000 {
                assert((rest << 32u64) == rest * 0x1_0000_0000 && ((rest << 32u64) | u_low) == (rest << 32u64) + u_low) by (bit_vector)
                    requires
                        rest < 0x1_0000_0000,
                        u_low < 0x1_0000_0000,
                ;
                // An estimate whose product exceeds the dividend is too large.
                assert(digit * normalized > n) by (nonlinear_arith)
                    requires
                        digit * bottom > rest * h + u_low,
                        digit * top + rest == u_high,
                        n == u_high * h + u_low,
                        normalized == top * h + bottom,
                ;
                if digit <= q {
                    lemma_mul_le(digit as int, normalized as int, q, normalized as int);
                }
            }
        }
        let ghost old_digit = digit;
        let ghost old_rest = rest;
        digit -= 1;
        rest += top;
        proof {
            assert(digit * top + rest == u_high) by (nonlinear_arith)
                requires
                    old_digit * top + old_rest == u_high,
                    digit == old_digit - 1,
                    rest == old_rest + top,
            ;
            if digit < h {
                lemma_mul_le(digit as int, bottom as int, h - 1, h - 1);
            }
        }
        if rest >= 0x1_0000_0000 {
            break;
        }
        proof {
            assert((rest << 32u64) == rest * 0x1_0000_0000 && ((rest << 32u64) | u_low) == (rest << 32u64) + u_low) by (bit_vector)
                requires
                    rest < 0x1_0000_0000,
                    u_low < 0x1_0000_0000,
            ;
            if digit < h {
                lemma_mul_le(digit as int, bottom as int, h - 1, h - 1);
            }
        }
    }
    proof {
        if rest < h {
            assert((rest << 32u64) == rest * 0x1_0000_0000 && ((rest << 32u64) | u_low) == (rest << 32u64) + u_low) by (bit_vector)
                requires
                    rest < 0x1_0000_0000,
                    u_low < 0x1_0000_0000,
            ;
        }
        // The final estimate never exceeds the dividend, so it is the digit.
        assert(digit * normalized <= n) by (nonlinear_arith)
            requires
                (digit < h && digit * bottom <= rest * h + u_low) || (rest >= h),
                digit <= h + 1,
                digit * top + rest == u_high,
                n == u_high * h + u_low,
                normalized == top * h + bottom,
                bottom < h,
                h == 0x1_0000_0000,
                u_low >= 0,
        ;
        lemma_mul_le(q, normalized as int, digit as int, normalized as int);
        lemma_div_unique(n, normalized as int, digit as int, n - digit * normalized);
    }
    // The true partial remainder is below the divisor, so it survives the
    // wrapping subtraction of the two-word product intact.
    let dividend = (u_high << 32) | u_low;
    let product = digit.wrapping_mul(normalized);
    proof {
        assert((u_high << 32u64) == (u_high * 0x1_0000_0000) % 0x1_0000_0000_0000_0000
            && ((u_high << 32u64) | u_low) == (u_high << 32u64) + u_low) by (bit_vector)
            requires
                u_low < 0x1_0000_0000,
        ;
        lemma_div_mod(u_high * h, word());
        lemma_div_mod(n, word());
        lemma_div_mod(digit * normalized, word());
        assert(dividend == n % word()) by {
            lemma_div_unique(n, word(), (u_high * h) / word(), (u_high * h) % word() + u_low);
            assert((u_high * h) % word() + u_low < word()) by {
                lemma_div_mod(u_high as int, h);
                let a = (u_high as int) / h;
                let b = (u_high as int) % h;
                assert(u_high * h == a * word() + b * h) by (nonlinear_arith)
                    requires
                        u_high == a * h + b,
                        word() == h * h,
                ;
                assert(0 <= b * h <= (h - 1) * h) by (nonlinear_arith)
                    requires
                        0 <= b < h,
                ;
                lemma_div_unique(u_high * h, word(), a, b * h);
            }
        }
    }
    let remainder = dividend.wrapping_sub(product);
    proof {
        let k = n / word() - (digit * normalized) / word();
        assert(n - digit * normalized == dividend - product + k * word());
    }
    (digit, remainder)
}

} // verus!

verus! {

/// A right shift by `s` divides by the shifted power of two `1 << s`.
pub proof fn lemma_shr_is_div_pow(x: u64, s: u64)
    requires
        s < 64,
    ensures
        x >> s == x / (1u64 << s),
        (1u64 << s) == vstd::arithmetic::power2::pow2(s as nat),
{
    vstd::bits::lemma_u64_pow2_no_overflow(s as nat);
    vstd::bits::lemma_u64_shl_is_mul(1, s);
    vstd::bits::lemma_u64_shr_is_div(x, s);
}

/// What `leading_zeros` tells about a nonzero word: its top set bit.
pub proof fn lemma_leading_zeros(d: u64, s: u64)
    requires
        d != 0,
        s as int == vstd::std_specs::bits::u64_leading_zeros(d),
    ensures
        s < 64,
        s > 0 ==> d >> ((64 - s) as u64) == 0,
        (d >> ((63 - s) as u64)) & 1 != 0,
{
    vstd::std_specs::bits::axiom_u64_leading_zeros(d);
}

/// Shifting a two-word dividend and its divisor left by the divisor's
/// leading zeros normalizes the divisor and scales both by `2^s`.
proof fn lemma_normalize(d: u64, high: u64, low: u64, s: u64)
    requires
        0 < s < 64,
        d >> ((64 - s) as u64) == 0,
        (d >> ((63 - s) as u64)) & 1 != 0,
        high < d,
    ensures
        (1u64 << s) > 0,
        (d << s) == d * (1u64 << s),
        (d << s) >= 0x8000_0000_0000_0000,
        ((high << s) | (low >> ((64 - s) as u64))) < (d << s),
        two_words((high << s) | (low >> ((64 - s) as u64)), low << s) == two_words(high, low) * (1u64 << s),
{
    assert((1u64 << s) > 0 && (d << s) == d * (1u64 << s) && (d << s) >= 0x8000_0000_0000_0000)
        by (bit_vector)
        requires
            0 < s < 64,
            d >> ((64 - s) as u64) == 0,
            (d >> ((63 - s) as u64)) & 1 != 0,
    ;
    assert((high << s) | (low >> ((64 - s) as u64)) == high * (1u64 << s) + (low >> ((64 - s) as u64))
        && (low >> ((64 - s) as u64)) < (1u64 << s)) by (bit_vector)
        requires
            0 < s < 64,
            d >> ((64 - s) as u64) == 0,
            high < d,
    ;
    assert((low >> ((64 - s) as u64)) * 0x1_0000_0000_0000_0000 + (low << s) == low * (1u64 << s))
        by (bit_vector)
        requires
            0 < s < 64,
    ;
    let p = (1u64 << s) as int;
    let lh = (low >> ((64 - s) as u64)) as int;
    lemma_mul_le(high as int + 1, p, d as int, p);
    assert(high * p + lh < d * p) by (nonlinear_arith)
        requires
            (high + 1) * p <= d * p,
            lh < p,
    ;
    assert((high * p + lh) * word() + (low << s) == (high * word() + low) * p) by (nonlinear_arith)
        requires
            lh * word() + (low << s) == low * p,
    ;
}

/// `(high * 2^64 + low) / denominator` and its remainder, for a quotient
/// that fits one word.
///
/// Knuth's Algorithm D with 32-bit digits: normalize the divisor so its top
/// bit is set, then produce two quotient digits.
pub fn div_rem_128_by_64(high: u64, low: u64, denominator: u64) -> (r: (u64, u64))
    requires
        denominator != 0,
        high < denominator,
    ensures
        r.0 == two_words(high, low) / (denominator as int),
        r.1 == two_words(high, low) % (denominator as int),
{
    if high == 0 {
        return (low / denominator, low % denominator);
    }
    let (shift, normalized, n2, n10) = if denominator >> 63 != 0 {
        (0, denominator, high, low)
    } else {
        let shift = denominator.leading_zeros() as u64;
        proof {
            lemma_leading_zeros(denominator, shift);
            assert(shift > 0) by (bit_vector)
                requires
                    denominator >> 63u64 == 0,
                    (denominator >> ((63 - shift) as u64)) & 1 != 0,
                    shift < 64,
            ;
            lemma_normalize(denominator, high, low, shift);
        }
        (shift, denominator << shift, (high << shift) | (low >> (64 - shift)), low << shift)
    };
    proof {
        if shift == 0 {
            assert((1u64 << 0u64) == 1) by (bit_vector);
            assert(denominator >> 63u64 != 0 ==> denominator >= 0x8000_0000_0000_0000) by (bit_vector);
        }
    }
    divide_normalized(high, low, denominator, shift, normalized, n2, n10)
}

/// The two-digit division shared by the one-shot and prepared dividers, on a
/// dividend and divisor already scaled by `2^shift`.
fn divide_normalized(
    high: u64,
    low: u64,
    denominator: u64,
    shift: u64,
    normalized: u64,
    n2: u64,
    n10: u64,
) -> (r: (u64, u64))
    requires
        denominator != 0,
        shift < 64,
        (1u64 << shift) > 0,
        normalized == denominator * (1u64 << shift),
        normalized >= 0x8000_0000_0000_0000,
        n2 < normalized,
        two_words(n2, n10) == two_words(high, low) * (1u64 << shift),
    ensures
        r.0 == two_words(high, low) / (denominator as int),
        r.1 == two_words(high, low) % (denominator as int),
{
    proof {
        lemma_halves(n10);
    }
    let (q1, r1) = divide_digit(n2, n10 >> 32, normalized);
    let (q0, r0) = divide_digit(r1, n10 & 0xffff_ffff, normalized);
    let quotient = (q1 << 32) | q0;
    let remainder = r0 >> shift;
    proof {
        assert((q1 << 32u64) | q0 == q1 * 0x1_0000_0000 + q0) by (bit_vector)
            requires
                q1 < 0x1_0000_0000,
                q0 < 0x1_0000_0000,
        ;
        lemma_shr_is_div_pow(r0, shift);
        let h = half_word();
        let p = (1u64 << shift) as int;
        let n = two_words(high, low);
        let q = quotient as int;
        assert(n * p == q * normalized + r0) by (nonlinear_arith)
            requires
                n * p == n2 * word() + n10,
                n10 == (n10 >> 32u64) * h + (n10 & 0xffff_ffffu64),
                q1 * normalized + r1 == n2 * h + (n10 >> 32u64),
                q0 * normalized + r0 == r1 * h + (n10 & 0xffff_ffffu64),
                q == q1 * h + q0,
                word() == h * h,
        ;
        lemma_div_mod(n, denominator as int);
        let nq = n / (denominator as int);
        let nr = n % (denominator as int);
        assert(n * p == nq * normalized + nr * p) by (nonlinear_arith)
            requires
                n == nq * denominator + nr,
                normalized == denominator * p,
        ;
        lemma_mul_le(nr + 1, p, denominator as int, p);
        assert(nr * p < normalized) by (nonlinear_arith)
            requires
                p > 0,
                (nr + 1) * p <= denominator * p,
                normalized == denominator * p,
        ;
        lemma_div_unique(n * p, normalized as int, q, r0 as int);
        lemma_div_unique(n * p, normalized as int, nq, nr * p);
        assert(nr * p / p == nr) by {
            lemma_div_unique(nr * p, p, nr, 0);
        }
    }
    (quotient, remainder)
}

} // verus!

verus! {

/// The exact outcome of `a * b / denominator` as a quotient/remainder pair:
/// a zero denominator is `DivByZero`, a quotient wider than a word is
/// `Overflow`.
pub open spec fn mul_div_result(a: u64, b: u64, denominator: u64) -> Result<(u64, u64), MathError> {
    if denominator == 0 {
        Err(MathError::DivByZero)
    } else if (a * b) / (denominator as int) > u64::MAX {
        Err(MathError::Overflow)
    } else {
        Ok((((a * b) / (denominator as int)) as u64, ((a * b) % (denominator as int)) as u64))
    }
}

/// The exact outcome of `floor(a * b / denominator)`.
pub open spec fn mul_div_floor_result(a: u64, b: u64, denominator: u64) -> Result<u64, MathError> {
    if denominator == 0 {
        Err(MathError::DivByZero)
    } else if (a * b) / (denominator as int) > u64::MAX {
        Err(MathError::Overflow)
    } else {
        Ok(((a * b) / (denominator as int)) as u64)
    }
}

/// The exact outcome of `ceil(a * b / denominator)`.
pub open spec fn mul_div_ceil_result(a: u64, b: u64, denominator: u64) -> Result<u64, MathError> {
    if denominator == 0 {
        Err(MathError::DivByZero)
    } else if ceil_div(a * b, denominator as int) > u64::MAX {
        Err(MathError::Overflow)
    } else {
        Ok(ceil_div(a * b, denominator as int) as u64)
    }
}

/// The error, if any, of dividing a two-word product with top word `high`.
pub fn mul_div_error(high: u64, denominator: u64) -> (r: Option<MathError>)
    ensures
        r == (if denominator == 0 {
            Some(MathError::DivByZero)
        } else if high >= denominator {
            Some(MathError::Overflow)
        } else {
            None
        }),
{
    if denominator == 0 {
        Some(MathError::DivByZero)
    } else if high >= denominator {
        Some(MathError::Overflow)
    } else {
        None
    }
}

/// The ceiling from a floor quotient and its remainder.
pub fn ceil_from_quotient_remainder(quotient: u64, remainder: u64) -> (r: Result<u64, MathError>)
    ensures
        r == (if remainder == 0 {
            Ok(quotient)
        } else if quotient == u64::MAX {
            Err(MathError::Overflow)
        } else {
            Ok((quotient + 1) as u64)
        }),
{
    match quotient.checked_add(if remainder != 0 { 1 } else { 0 }) {
        Some(rounded) => Ok(rounded),
        None => Err(MathError::Overflow),
    }
}

/// A product that exceeds `denominator` words overflows exactly when its
/// top word reaches the denominator.
proof fn lemma_quotient_fits(a: u64, b: u64, high: u64, low: u64, denominator: u64)
    requires
        denominator != 0,
        two_words(high, low) == a * b,
    ensures
        (a * b) / (denominator as int) > u64::MAX <==> high >= denominator,
{
    lemma_div_lt_iff(a * b, denominator as int, word());
}

/// Narrow shapes of `a * b / denominator` that need no two-word division.
///
/// Both operands within a half-word multiply natively. One wide operand with
/// a half-word denominator splits the wide operand by the denominator.
/// Anything else declines with `None`.
fn mul_div_narrow(a: u64, b: u64, denominator: u64) -> (r: Option<Result<(u64, u64), MathError>>)
    requires
        denominator != 0,
    ensures
        r matches Some(result) ==> result == mul_div_result(a, b, denominator),
{
    let a_high = a >> 32;
    let b_high = b >> 32;
    if a_high | b_high == 0 {
        proof {
            assert((a >> 32u64) | (b >> 32u64) == 0 ==> a < 0x1_0000_0000 && b < 0x1_0000_0000) by (bit_vector);
            lemma_mul_le(a as int, b as int, 0xffff_ffff, 0xffff_ffff);
        }
        let product = a * b;
        return Some(Ok((product / denominator, product % denominator)));
    }
    // Two wide operands defeat both remaining branches (each needs one
    // operand inside a word half), so big-by-big products exit at once.
    if a_high != 0 && b_high != 0 {
        return None;
    }
    let (large, small) = if a >= b { (a, b) } else { (b, a) };
    proof {
        assert(a_high == 0 ==> a < 0x1_0000_0000) by (bit_vector)
            requires
                a_high == a >> 32u64,
        ;
        assert(b_high == 0 ==> b < 0x1_0000_0000) by (bit_vector)
            requires
                b_high == b >> 32u64,
        ;
        assert(small < 0x1_0000_0000);
        assert(large * small == a * b) by (nonlinear_arith)
            requires
                (large == a && small == b) || (large == b && small == a),
        ;
    }
    let ghost d = denominator as int;
    let ghost l1 = (large as int) / d;
    let ghost l0 = (large as int) % d;
    proof {
        lemma_div_mod(large as int, d);
    }
    if small < denominator && denominator <= 0xffff_ffff {
        proof {
            lemma_mul_le(l0, small as int, d, d);
            lemma_mul_le(d, d, 0xffff_ffff, 0xffff_ffff);
        }
        let remainder_product = (large % denominator) * small;
        proof {
            lemma_split_quotient(large as int, small as int, d, remainder_product as int);
            let q = l1 * small + (remainder_product as int) / d;
            lemma_div_mod(large * small, d);
            // The quotient is below `large` because `small < denominator`.
            assert(q * d <= large * small);
            lemma_mul_le(large as int, small as int, large as int, d - 1);
            assert(large * (d - 1) < large * d || large == 0) by (nonlinear_arith)
                requires
                    d > 0,
                    large >= 0,
            ;
            if q >= large && large > 0 {
                lemma_mul_le(large as int, d, q, d);
            }
            lemma_mul_le(l1, small as int, l1, small as int);
        }
        return Some(Ok((
            (large / denominator) * small + remainder_product / denominator,
            remainder_product % denominator,
        )));
    }
    if small <= 0xffff_ffff && denominator <= 0xffff_ffff {
        proof {
            lemma_mul_le(l0, small as int, d, 0xffff_ffff);
            lemma_mul_le(d, 0xffff_ffff, 0xffff_ffff, 0xffff_ffff);
        }
        let remainder_product = (large % denominator) * small;
        proof {
            lemma_split_quotient(large as int, small as int, d, remainder_product as int);
        }
        let whole = match (large / denominator).checked_mul(small) {
            Some(whole) => whole,
            None => {
                proof {
                    lemma_div_mod(remainder_product as int, d);
                }
                return Some(Err(MathError::Overflow));
            },
        };
        let quotient = match whole.checked_add(remainder_product / denominator) {
            Some(quotient) => quotient,
            None => return Some(Err(MathError::Overflow)),
        };
        return Some(Ok((quotient, remainder_product % denominator)));
    }
    // One wide operand with a denominator above a word half declines: the
    // wide route's zero-high path already divides a fitting product natively.
    None
}

/// Splitting the larger factor by the denominator: with
/// `large = l1 * d + l0` and `rp = l0 * small`, the quotient of
/// `large * small` is `l1 * small + rp / d` and its remainder `rp % d`.
proof fn lemma_split_quotient(large: int, small: int, d: int, rp: int)
    requires
        d > 0,
        large >= 0,
        small >= 0,
        rp == (large % d) * small,
    ensures
        (large * small) / d == (large / d) * small + rp / d,
        (large * small) % d == rp % d,
{
    lemma_div_mod(large, d);
    lemma_div_mod(rp, d);
    let l1 = large / d;
    let l0 = large % d;
    assert(large * small == (l1 * small + rp / d) * d + rp % d) by (nonlinear_arith)
        requires
            large == l1 * d + l0,
            rp == l0 * small,
            rp == (rp / d) * d + rp % d,
    ;
    lemma_div_unique(large * small, d, l1 * small + rp / d, rp % d);
}

} // verus!

verus! {

/// Direct ceiling for operands within a half-word: the exact product fits
/// one word, and a nonzero divisor makes `ceil(product / d) <= product`.
fn ceil_narrow(a: u64, b: u64, denominator: u64) -> (r: Option<u64>)
    requires
        denominator != 0,
    ensures
        r matches Some(q) ==> Ok::<u64, MathError>(q) == mul_div_ceil_result(a, b, denominator),
{
    if a <= 0xffff_ffff && b <= 0xffff_ffff {
        proof {
            lemma_mul_le(a as int, b as int, 0xffff_ffff, 0xffff_ffff);
        }
        let product = a * b;
        proof {
            lemma_div_mod(product as int, denominator as int);
            if product % denominator != 0 {
                assert(product / denominator < product) by (nonlinear_arith)
                    requires
                        product == (product / denominator) * denominator + product % denominator,
                        product % denominator > 0,
                        denominator >= 1,
                        product / denominator >= 0,
                ;
            }
        }
        Some(product / denominator + if product % denominator != 0 { 1 } else { 0 })
    } else {
        None
    }
}

/// `a * b / denominator` as an exact quotient/remainder pair.
pub fn mul_div(a: u64, b: u64, denominator: u64) -> (r: Result<(u64, u64), MathError>)
    ensures
        r == mul_div_result(a, b, denominator),
{
    if denominator == 0 {
        return Err(MathError::DivByZero);
    }
    if let Some(result) = mul_div_narrow(a, b, denominator) {
        return result;
    }
    let (high, low) = widening_mul(a, b);
    proof {
        lemma_quotient_fits(a, b, high, low, denominator);
    }
    if let Some(error) = mul_div_error(high, denominator) {
        return Err(error);
    }
    Ok(div_rem_128_by_64(high, low, denominator))
}

/// `floor(a * b / denominator)` exactly.
pub fn mul_div_floor(a: u64, b: u64, denominator: u64) -> (r: Result<u64, MathError>)
    ensures
        r == mul_div_floor_result(a, b, denominator),
{
    match mul_div(a, b, denominator) {
        Ok((quotient, _)) => Ok(quotient),
        Err(error) => Err(error),
    }
}

/// `ceil(a * b / denominator)` exactly.
pub fn mul_div_ceil(a: u64, b: u64, denominator: u64) -> (r: Result<u64, MathError>)
    ensures
        r == mul_div_ceil_result(a, b, denominator),
{
    if denominator == 0 {
        return Err(MathError::DivByZero);
    }
    if let Some(quotient) = ceil_narrow(a, b, denominator) {
        return Ok(quotient);
    }
    let (quotient, remainder) = match mul_div(a, b, denominator) {
        Ok(pair) => pair,
        Err(error) => return Err(error),
    };
    ceil_from_quotient_remainder(quotient, remainder)
}

/// `(high * 2^64 + low) / denominator` with a quotient of up to two words.
pub fn div_rem_wide_quotient(high: u64, low: u64, denominator: u64) -> (r: (u64, u64, u64))
    requires
        denominator != 0,
    ensures
        two_words(r.0, r.1) == two_words(high, low) / (denominator as int),
        r.2 == two_words(high, low) % (denominator as int),
{
    let quotient_high = high / denominator;
    let (quotient_low, remainder) = div_rem_128_by_64(high % denominator, low, denominator);
    proof {
        let d = denominator as int;
        lemma_div_mod(high as int, d);
        let inner = two_words(high % denominator, low);
        lemma_div_mod(inner, d);
        assert(two_words(high, low) == two_words(quotient_high, quotient_low) * d + remainder) by (nonlinear_arith)
            requires
                high == quotient_high * d + high % denominator,
                inner == (high % denominator) * word() + low,
                inner == quotient_low * d + remainder,
                two_words(high, low) == high * word() + low,
                two_words(quotient_high, quotient_low) == quotient_high * word() + quotient_low,
        ;
        lemma_div_unique(two_words(high, low), d, two_words(quotient_high, quotient_low), remainder as int);
    }
    (quotient_high, quotient_low, remainder)
}

/// A divisor prepared once for repeated divisions: the denominator with its
/// normalized form and normalization shift.
pub struct FixedDivisor {
    denominator: u64,
    normalized: u64,
    shift: u64,
}

impl FixedDivisor {
    /// The prepared divisor's fields agree with its denominator.
    pub closed spec fn wf(&self) -> bool {
        &&& self.denominator != 0
        &&& self.shift as int == vstd::std_specs::bits::u64_leading_zeros(self.denominator)
        &&& self.normalized == self.denominator * (1u64 << self.shift)
        &&& self.normalized >= 0x8000_0000_0000_0000
    }

    /// The denominator this divisor divides by.
    pub closed spec fn divisor(&self) -> u64 {
        self.denominator
    }

    /// A prepared divisor is nonzero.
    pub proof fn lemma_divisor_nonzero(&self)
        requires
            self.wf(),
        ensures
            self.divisor() > 0,
    {
    }

    /// Prepares `denominator`; a zero denominator is `DivByZero`.
    pub fn new(denominator: u64) -> (r: Result<Self, MathError>)
        ensures
            denominator == 0 ==> r == Err::<Self, MathError>(MathError::DivByZero),
            denominator != 0 ==> (r matches Ok(divisor) && divisor.wf() && divisor.divisor() == denominator),
    {
        if denominator == 0 {
            return Err(MathError::DivByZero);
        }
        let shift = denominator.leading_zeros() as u64;
        proof {
            lemma_leading_zeros(denominator, shift);
            if shift > 0 {
                lemma_normalize(denominator, 0, 0, shift);
            } else {
                assert((1u64 << 0u64) == 1 && (denominator << 0u64) == denominator) by (bit_vector);
                assert((denominator >> 63u64) & 1 != 0 ==> denominator >= 0x8000_0000_0000_0000) by (bit_vector);
            }
        }
        let divisor = FixedDivisor { denominator, normalized: denominator << shift, shift };
        assert(divisor.wf());
        Ok(divisor)
    }

    /// Division of a two-word value; a quotient wider than a word is
    /// `Overflow`.
    pub fn div_rem(&self, high: u64, low: u64) -> (r: Result<(u64, u64), MathError>)
        requires
            self.wf(),
        ensures
            high >= self.divisor() ==> r == Err::<(u64, u64), MathError>(MathError::Overflow),
            high < self.divisor() ==> r == Ok::<(u64, u64), MathError>((
                (two_words(high, low) / (self.divisor() as int)) as u64,
                (two_words(high, low) % (self.divisor() as int)) as u64,
            )),
    {
        if high >= self.denominator {
            return Err(MathError::Overflow);
        }
        Ok(self.div_rem_valid(high, low))
    }

    /// Division of a two-word value whose quotient fits a word.
    pub fn div_rem_valid(&self, high: u64, low: u64) -> (r: (u64, u64))
        requires
            self.wf(),
            high < self.divisor(),
        ensures
            r.0 == two_words(high, low) / (self.divisor() as int),
            r.1 == two_words(high, low) % (self.divisor() as int),
    {
        if high == 0 {
            return (low / self.denominator, low % self.denominator);
        }
        proof {
            lemma_leading_zeros(self.denominator, self.shift);
            assert((1u64 << 0u64) == 1) by (bit_vector);
            if self.shift > 0 {
                lemma_normalize(self.denominator, high, low, self.shift);
            } else {
                let s = self.shift;
                assert((1u64 << s) == 1) by (bit_vector)
                    requires
                        s == 0,
                ;
                let t = (1u64 << s) as int;
                assert(self.denominator * t == self.denominator) by (nonlinear_arith)
                    requires
                        t == 1,
                ;
            }
        }
        let (n2, n10) = if self.shift == 0 {
            (high, low)
        } else {
            ((high << self.shift) | (low >> (64 - self.shift)), low << self.shift)
        };
        divide_normalized(high, low, self.denominator, self.shift, self.normalized, n2, n10)
    }

    /// `a * b / denominator` as an exact quotient/remainder pair.
    pub fn mul_div(&self, a: u64, b: u64) -> (r: Result<(u64, u64), MathError>)
        requires
            self.wf(),
        ensures
            r == mul_div_result(a, b, self.divisor()),
    {
        if let Some(result) = mul_div_narrow(a, b, self.denominator) {
            return result;
        }
        let (high, low) = widening_mul(a, b);
        proof {
            lemma_quotient_fits(a, b, high, low, self.denominator);
        }
        self.div_rem(high, low)
    }

    /// `floor(a * b / denominator)` exactly.
    pub fn mul_div_floor(&self, a: u64, b: u64) -> (r: Result<u64, MathError>)
        requires
            self.wf(),
        ensures
            r == mul_div_floor_result(a, b, self.divisor()),
    {
        match self.mul_div(a, b) {
            Ok((quotient, _)) => Ok(quotient),
            Err(error) => Err(error),
        }
    }

    /// `ceil(a * b / denominator)` exactly.
    pub fn mul_div_ceil(&self, a: u64, b: u64) -> (r: Result<u64, MathError>)
        requires
            self.wf(),
        ensures
            r == mul_div_ceil_result(a, b, self.divisor()),
    {
        if let Some(quotient) = ceil_narrow(a, b, self.denominator) {
            return Ok(quotient);
        }
        let (quotient, remainder) = match self.mul_div(a, b) {
            Ok(pair) => pair,
            Err(error) => return Err(error),
        };
        ceil_from_quotient_remainder(quotient, remainder)
    }
}

} // verus!

verus! {

/// Every power of ten a word can hold.
pub const POW10: [u64; 20] = [
    1, 10, 100, 1000, 10000, 100000, 1000000, 10000000, 100000000, 1000000000,
    10000000000, 100000000000, 1000000000000, 10000000000000, 100000000000000,
    1000000000000000, 10000000000000000, 100000000000000000, 1000000000000000000,
    10000000000000000000,
];

/// The table holds `10^k`.
proof fn lemma_pow10_word_table(k: int)
    requires
        0 <= k < 20,
    ensures
        POW10[k] == crate::arith::pow10(k as nat),
{
    reveal_with_fuel(crate::arith::pow10, 21);
}

/// `5^k`.
pub open spec fn pow5(k: nat) -> nat
    decreases k,
{
    if k == 0 {
        1
    } else {
        5 * pow5((k - 1) as nat)
    }
}

/// `10^k == 2^k * 5^k` with `5^k` odd.
pub proof fn lemma_pow10_split(k: nat)
    ensures
        crate::arith::pow10(k) == vstd::arithmetic::power2::pow2(k) * pow5(k),
        pow5(k) % 2 == 1,
    decreases k,
{
    if k == 0 {
        vstd::arithmetic::power2::lemma2_to64();
    } else {
        lemma_pow10_split((k - 1) as nat);
        vstd::arithmetic::power2::lemma_pow2_unfold(k);
        let p = vstd::arithmetic::power2::pow2((k - 1) as nat) as int;
        let f = pow5((k - 1) as nat) as int;
        assert(10 * (p * f) == (2 * p) * (5 * f)) by (nonlinear_arith);
        assert((5 * f) % 2 == 1) by (nonlinear_arith)
            requires
                f % 2 == 1,
        ;
    }
}

/// A word `2^k * m` with `m` odd has exactly `k` trailing zeros.
pub proof fn lemma_trailing_zeros_of(v: u64, k: nat, m: int)
    requires
        v == vstd::arithmetic::power2::pow2(k) * m,
        m % 2 == 1,
        k < 64,
    ensures
        vstd::std_specs::bits::u64_trailing_zeros(v) == k,
{
    vstd::std_specs::bits::axiom_u64_trailing_zeros(v);
    let t = vstd::std_specs::bits::u64_trailing_zeros(v);
    lemma_pow2_pos(k);
    assert(m > 0) by (nonlinear_arith)
        requires
            v == pow2(k) * m,
            pow2(k) > 0,
            v >= 0,
            m % 2 == 1,
    ;
    assert(v != 0) by (nonlinear_arith)
        requires
            v == pow2(k) * m,
            pow2(k) > 0,
            m > 0,
    ;
    vstd::arithmetic::power2::lemma2_to64();
    if t < k {
        let j = t as u64;
        vstd::bits::lemma_u64_shr_is_div(v, j);
        lemma_pow2_adds(j as nat, (k - j) as nat);
        lemma_pow2_pos(j as nat);
        let e = pow2((k - j) as nat) as int;
        vstd::arithmetic::power2::lemma_pow2_unfold((k - j) as nat);
        let h = pow2((k - j - 1) as nat) as int;
        assert(v == pow2(j as nat) * (2 * h * m)) by (nonlinear_arith)
            requires
                v == pow2(k) * m,
                pow2(k) == pow2(j as nat) * e,
                e == 2 * h,
        ;
        vstd::arithmetic::div_mod::lemma_div_multiples_vanish(2 * h * m, pow2(j as nat) as int);
        assert((v >> j) as int == 2 * h * m) by {
            assert(pow2(j as nat) * (2 * h * m) == (2 * h * m) * pow2(j as nat)) by (nonlinear_arith);
        }
        vstd::bits::lemma_u64_low_bits_mask_is_mod(v >> j, 1);
        assert(2 * h * m == (h * m) * 2) by (nonlinear_arith);
        vstd::arithmetic::div_mod::lemma_mod_multiples_basic(h * m, 2);
        assert(false);
    } else if t > k {
        let j = k as u64;
        assert((v >> j) & 1u64 == 0u64);
        vstd::bits::lemma_u64_shr_is_div(v, j);
        vstd::arithmetic::div_mod::lemma_div_multiples_vanish(m, pow2(k) as int);
        assert((v >> j) as int == m) by {
            assert(pow2(k) * m == m * pow2(k)) by (nonlinear_arith);
        }
        vstd::bits::lemma_u64_low_bits_mask_is_mod(v >> j, 1);
        assert(false);
    }
}

/// `value` is `10^k` for a `k` a word can hold.
pub open spec fn is_decimal_power(value: int, k: int) -> bool {
    0 <= k < 20 && value == crate::arith::pow10(k as nat)
}

/// Powers of ten are distinct.
pub proof fn lemma_decimal_power_unique(value: int, j: int, k: int)
    requires
        is_decimal_power(value, j),
        is_decimal_power(value, k),
    ensures
        j == k,
{
    if j < k {
        lemma_pow10_strict(j as nat, k as nat);
    } else if k < j {
        lemma_pow10_strict(k as nat, j as nat);
    }
}

/// `10^j < 10^k` for `j < k`.
proof fn lemma_pow10_strict(j: nat, k: nat)
    requires
        j < k,
    ensures
        crate::arith::pow10(j) < crate::arith::pow10(k),
    decreases k,
{
    lemma_pow10_positive(j);
    if j + 1 < k {
        lemma_pow10_strict(j, (k - 1) as nat);
    }
    lemma_pow10_positive((k - 1) as nat);
}

/// `10^k >= 1`.
pub proof fn lemma_pow10_positive(k: nat)
    ensures
        crate::arith::pow10(k) >= 1,
    decreases k,
{
    if k > 0 {
        lemma_pow10_positive((k - 1) as nat);
    }
}

/// The exponent `k` when `value == 10^k`, found from its trailing zeros.
pub fn decimal_exponent(value: u64) -> (r: Option<usize>)
    ensures
        r matches Some(k) ==> is_decimal_power(value as int, k as int),
        r is None ==> forall|k: int| !is_decimal_power(value as int, k),
{
    let index = value.trailing_zeros() as usize;
    if index < 20 && POW10[index] == value {
        proof {
            lemma_pow10_word_table(index as int);
        }
        Some(index)
    } else {
        proof {
            assert forall|k: int| !is_decimal_power(value as int, k) by {
                if is_decimal_power(value as int, k) {
                    lemma_pow10_split(k as nat);
                    lemma_trailing_zeros_of(value, k as nat, pow5(k as nat) as int);
                    lemma_pow10_word_table(k);
                }
            }
        }
        None
    }
}

} // verus!
