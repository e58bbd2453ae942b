//! Exact integer square roots.
use crate::arith::{is_ceil_sqrt, is_isqrt, isqrt_spec, lemma_div_lt_iff, lemma_div_mod, lemma_div_unique, lemma_isqrt_spec, lemma_isqrt_unique, lemma_mul_le, lemma_square_lt, two_words, word};
use crate::error::MathError;
use crate::kernel::wide::{lemma_leading_zeros, lemma_shr_is_div_pow, widening_mul};
use vstd::arithmetic::power2::{lemma_pow2_adds, lemma_pow2_pos, lemma_pow2_strictly_increases, pow2};
use vstd::prelude::*;

verus! {

/// One integer Newton step from `root`, given `quotient = value / root`.
pub fn isqrt_newton_from_quotient(root: u64, quotient: u64) -> (next: u64)
    requires
        root + quotient <= u64::MAX,
    ensures
        next == (root + quotient) / 2,
{
    proof {
        let sum = (root + quotient) as u64;
        assert(sum >> 1u64 == sum / 2) by (bit_vector);
    }
    (root + quotient) >> 1
}

/// The Newton step never lands below the integer root: for `r >= 1`,
/// `floor((r + floor(v / r)) / 2) >= isqrt(v)`.
proof fn lemma_newton_stays_above(v: int, r: int, s: int)
    requires
        v >= 0,
        r >= 1,
        is_isqrt(v, s),
    ensures
        (r + v / r) / 2 >= s,
{
    lemma_div_mod(v, r);
    let q = v / r;
    if r + q < 2 * s {
        // v < (q + 1) * r <= (2s - r) * r = s^2 - (s - r)^2 <= s^2 <= v.
        assert(v < (q + 1) * r) by (nonlinear_arith)
            requires
                v == q * r + v % r,
                v % r < r,
        ;
        lemma_mul_le(q + 1, r, 2 * s - r, r);
        assert((2 * s - r) * r <= s * s) by (nonlinear_arith);
    }
}

/// Above the integer root a Newton step at least halves the excess.
proof fn lemma_newton_halves(v: int, r: int, s: int)
    requires
        v >= 0,
        r >= s + 1,
        is_isqrt(v, s),
    ensures
        v / r <= s,
        (r + v / r) / 2 - s <= (r - s) / 2,
        (r + v / r) / 2 < r,
{
    lemma_div_lt_iff(v, r, s + 1);
    lemma_mul_le(s + 1, s + 1, r, s + 1);
    assert(v < (s + 1) * r) by (nonlinear_arith)
        requires
            v < (s + 1) * (s + 1),
            (s + 1) * (s + 1) <= r * (s + 1),
    ;
}

/// A power-of-two seed at or above the integer root of `value`.
pub fn isqrt_seed(value: u64) -> (seed: u64)
    requires
        value >= 2,
    ensures
        seed == pow2((((64 - vstd::std_specs::bits::u64_leading_zeros(value)) + 1) / 2) as nat),
        seed <= 0x1_0000_0000,
        seed >= 1,
        isqrt_spec(value as nat) < seed,
{
    let lz = value.leading_zeros() as u64;
    proof {
        lemma_leading_zeros(value, lz);
        assert(lz <= 62) by (bit_vector)
            requires
                (value >> ((63 - lz) as u64)) & 1 != 0,
                lz > 0 ==> value >> ((64 - lz) as u64) == 0,
                value >= 2,
                lz < 64,
        ;
    }
    let root_bits = (64 - lz + 1) / 2;
    proof {
        lemma_isqrt_spec(value as nat);
        let s = isqrt_spec(value as nat) as int;
        let bits = (64 - lz) as nat;
        // value < 2^bits <= 2^(2 * root_bits) = seed^2.
        if lz > 0 {
            vstd::bits::lemma_u64_shr_is_div(value, (64 - lz) as u64);
            lemma_pow2_pos(bits);
            lemma_div_lt_iff(value as int, pow2(bits) as int, 1);
        } else {
            vstd::arithmetic::power2::lemma2_to64_rest();
        }
        assert(value < pow2(bits));
        lemma_pow2_adds(root_bits as nat, root_bits as nat);
        if bits < 2 * root_bits {
            lemma_pow2_strictly_increases(bits, (2 * root_bits) as nat);
        }
        lemma_pow2_pos(root_bits as nat);
        let p = pow2(root_bits as nat) as int;
        if s >= p {
            lemma_mul_le(p, p, s, s);
        }
        vstd::bits::lemma_u64_pow2_no_overflow(root_bits as nat);
        vstd::bits::lemma_u64_shl_is_mul(1, root_bits);
        if root_bits < 32 {
            lemma_pow2_strictly_increases(root_bits as nat, 32);
        }
        vstd::arithmetic::power2::lemma2_to64();
    }
    1u64 << root_bits
}

/// The terminal correction: one decrement when the root overshoots.
pub fn isqrt_adjust_down_from_quotient(root: u64, quotient: u64) -> (r: u64)
    requires
        root > 0,
    ensures
        r == (if root > quotient { root - 1 } else { root as int }),
{
    if root > quotient {
        root - 1
    } else {
        root
    }
}

/// The integer square root of a word.
///
/// The seed is at least the root and at most `2^32`; while it is above the
/// root, one integer Newton step at least halves the excess, so 32 steps
/// always reach the root or one above it, and a converged step stops early.
pub fn isqrt_u64(value: u64) -> (r: u64)
    ensures
        is_isqrt(value as int, r as int),
{
    if value < 2 {
        proof {
            assert(value * value == value && value < (value + 1) * (value + 1)) by (nonlinear_arith)
                requires
                    value < 2,
            ;
        }
        return value;
    }
    proof {
        lemma_isqrt_spec(value as nat);
        vstd::arithmetic::power2::lemma2_to64();
    }
    let ghost s = isqrt_spec(value as nat) as int;
    let mut root = isqrt_seed(value);
    let ghost mut bound: int = 0x1_0000_0000;
    let mut step: u64 = 0;
    proof {
        assert(s >= 1) by {
            if s == 0 {
                assert(value < 1);
            }
        }
    }
    while step < 32
        invariant
            value >= 2,
            is_isqrt(value as int, s),
            s >= 1,
            s <= root <= 0x1_0000_0000,
            root - s <= bound,
            bound * pow2(step as nat) <= 0x1_0000_0000,
            bound >= 0,
            step <= 32,
            pow2(32) == 0x1_0000_0000,
            step == 32 ==> bound <= 1,
        ensures
            s <= root <= s + 1,
        decreases 32 - step,
    {
        proof {
            lemma_div_mod(value as int, root as int);
            lemma_quotient_near_root(value as int, root as int, s);
            if root >= s + 1 {
                lemma_newton_halves(value as int, root as int, s);
            }
        }
        let next = isqrt_newton_from_quotient(root, value / root);
        proof {
            lemma_newton_stays_above(value as int, root as int, s);
        }
        if next >= root {
            proof {
                if root >= s + 1 {
                    lemma_newton_halves(value as int, root as int, s);
                }
            }
            break;
        }
        proof {
            lemma_newton_halves(value as int, root as int, s);
            vstd::arithmetic::power2::lemma_pow2_unfold((step + 1) as nat);
            assert((bound / 2) * pow2((step + 1) as nat) <= 0x1_0000_0000) by (nonlinear_arith)
                requires
                    bound * pow2(step as nat) <= 0x1_0000_0000,
                    pow2((step + 1) as nat) == 2 * pow2(step as nat),
                    bound >= 0,
            ;
            bound = bound / 2;
        }
        root = next;
        step = step + 1;
        proof {
            if step == 32 {
                assert(bound <= 1) by (nonlinear_arith)
                    requires
                        bound * pow2(step as nat) <= 0x1_0000_0000,
                        pow2(step as nat) == 0x1_0000_0000,
                ;
            }
        }
    }
    let r = isqrt_adjust_down(value, root);
    proof {
        lemma_div_mod(value as int, root as int);
        if root == s + 1 {
            lemma_div_lt_iff(value as int, root as int, root as int);
        } else {
            lemma_div_lt_iff(value as int, root as int, root as int);
        }
    }
    r
}

/// Rust's unsigned division supplies the quotient; the branch on it is
/// the terminal correction.
fn isqrt_adjust_down(value: u64, root: u64) -> (r: u64)
    requires
        root > 0,
    ensures
        r == (if root > value / root { root - 1 } else { root as int }),
{
    isqrt_adjust_down_from_quotient(root, value / root)
}

/// Dividing by anything at or above the integer root leaves at most two
/// units above the root.
proof fn lemma_quotient_near_root(v: int, r: int, s: int)
    requires
        v >= 0,
        s >= 1,
        r >= s,
        is_isqrt(v, s),
    ensures
        v / r <= s + 2,
{
    vstd::arithmetic::div_mod::lemma_div_is_ordered_by_denominator(v, s, r);
    lemma_div_lt_iff(v, s, s + 3);
    assert(v < (s + 3) * s) by (nonlinear_arith)
        requires
            v < (s + 1) * (s + 1),
            s >= 1,
    ;
}

} // verus!

verus! {

/// The estimator's combine step: the high root in the top half, the capped
/// correction quotient in the bottom half, raised to at least `2^63`.
pub fn sqrt_estimate_from_quotient(high_root: u64, quotient: u64) -> (r: u64)
    requires
        0x8000_0000 <= high_root <= 0xffff_ffff,
    ensures
        r == (if high_root * 0x1_0000_0000 + (if quotient < 0xffff_ffff { quotient as int } else { 0xffff_ffff }) >= 0x8000_0000_0000_0000 {
            high_root * 0x1_0000_0000 + (if quotient < 0xffff_ffff { quotient as int } else { 0xffff_ffff })
        } else {
            0x8000_0000_0000_0000
        }),
{
    let low_root = if quotient < 0xffff_ffff { quotient } else { 0xffff_ffff };
    proof {
        assert((high_root << 32u64) == high_root * 0x1_0000_0000) by (bit_vector)
            requires
                high_root <= 0xffff_ffff,
        ;
    }
    let combined = (high_root << 32).wrapping_add(low_root);
    if combined >= 0x8000_0000_0000_0000 {
        combined
    } else {
        0x8000_0000_0000_0000
    }
}

/// The two-word Newton estimate from the high word's root is the integer
/// root of `high * 2^64 + low` or one above it.
proof fn lemma_estimate_brackets_root(high: u64, low: u64, h: int, t: int)
    requires
        high >= 0x4000_0000_0000_0000,
        is_isqrt(high as int, h),
        t == (((high - h * h) * word() + low) / (h * 0x2_0000_0000)),
    ensures
        0x8000_0000 <= h <= 0xffff_ffff,
        ({
            let x = h * 0x1_0000_0000 + (if t < 0xffff_ffff { t } else { 0xffff_ffff });
            let x2 = if x >= 0x8000_0000_0000_0000 { x } else { 0x8000_0000_0000_0000 };
            isqrt_spec(two_words(high, low) as nat) <= x2 <= isqrt_spec(two_words(high, low) as nat) + 1
        }),
{
    let n = two_words(high, low);
    lemma_isqrt_spec(n as nat);
    let s = isqrt_spec(n as nat) as int;
    let w = word();
    // The high root sits in [2^31, 2^32).
    if h < 0x8000_0000 {
        lemma_mul_le(h + 1, h + 1, 0x8000_0000, 0x8000_0000);
    }
    if h > 0xffff_ffff {
        lemma_mul_le(0x1_0000_0000, 0x1_0000_0000, h, h);
    }
    let y = h * 0x1_0000_0000;
    let rem = high - h * h;
    let big_r = rem * w + low;
    assert(0 <= rem <= 2 * h) by (nonlinear_arith)
        requires
            h * h <= high,
            high < (h + 1) * (h + 1),
            rem == high - h * h,
    ;
    assert(n == y * y + big_r) by (nonlinear_arith)
        requires
            n == high * w + low,
            y == h * 0x1_0000_0000,
            big_r == (high - h * h) * w + low,
            w == 0x1_0000_0000_0000_0000,
    ;
    assert(y * y <= n < (y + 0x1_0000_0000) * (y + 0x1_0000_0000)) by (nonlinear_arith)
        requires
            n == y * y + big_r,
            big_r == rem * w + low,
            0 <= rem <= 2 * h,
            0 <= low < w,
            y == h * 0x1_0000_0000,
            w == 0x1_0000_0000_0000_0000,
            h >= 1,
    ;
    // The root lies in [y, y + 2^32).
    if s < y {
        lemma_mul_le(s + 1, s + 1, y, y);
    }
    if s >= y + 0x1_0000_0000 {
        lemma_mul_le(y + 0x1_0000_0000, y + 0x1_0000_0000, s, s);
    }
    assert(s >= 0x8000_0000_0000_0000);
    // The estimate equals one Newton step from y.
    let two_y = h * 0x2_0000_0000;
    assert(two_y == 2 * y);
    lemma_div_mod(big_r, two_y);
    assert(t * two_y <= big_r < (t + 1) * two_y) by (nonlinear_arith)
        requires
            big_r == (big_r / two_y) * two_y + big_r % two_y,
            0 <= big_r % two_y < two_y,
            t == big_r / two_y,
    ;
    lemma_div_mod(n, y);
    assert(n / y == y + big_r / y) by {
        lemma_div_mod(big_r, y);
        assert(n == (y + big_r / y) * y + big_r % y) by (nonlinear_arith)
            requires
                n == y * y + big_r,
                big_r == (big_r / y) * y + big_r % y,
        ;
        lemma_div_unique(n, y, y + big_r / y, big_r % y);
    }
    assert((y + n / y) / 2 == y + t) by {
        vstd::arithmetic::div_mod::lemma_div_denominator(big_r, y, 2);
        assert(y * 2 == two_y);
        lemma_div_mod(big_r / y, 2);
        lemma_div_unique(2 * y + big_r / y, 2, y + (big_r / y) / 2, (big_r / y) % 2);
    }
    lemma_newton_stays_above(n, y, s);
    assert(t >= 0);
    // The correction quotient fits a half-word plus one.
    assert(t <= 0x1_0000_0000) by {
        if t > 0x1_0000_0000 {
            lemma_mul_le(0x1_0000_0001, two_y, t, two_y);
            assert(big_r < (2 * h + 1) * w) by (nonlinear_arith)
                requires
                    big_r == rem * w + low,
                    rem <= 2 * h,
                    low < w,
            ;
            assert(false) by (nonlinear_arith)
                requires
                    0x1_0000_0001 * two_y <= t * two_y,
                    t * two_y <= big_r,
                    big_r < (2 * h + 1) * w,
                    two_y == h * 0x2_0000_0000,
                    w == 0x1_0000_0000_0000_0000,
                    h >= 0x8000_0000,
            ;
        }
    }
    // (y + t - 1)^2 <= n, so the estimate is at most one above the root.
    let e = if t >= 1 { t - 1 } else { 1 - t };
    lemma_mul_le(e, e, 0x1_0000_0000, 0x1_0000_0000);
    assert((y + t - 1) * (y + t - 1) <= n) by (nonlinear_arith)
        requires
            n == y * y + big_r,
            t * two_y <= big_r,
            two_y == 2 * y,
            e * e <= 0x1_0000_0000 * 0x1_0000_0000,
            e == t - 1 || e == 1 - t,
            y >= 0x8000_0000_0000_0000,
    ;
    let capped = if t < 0xffff_ffff { t } else { 0xffff_ffff };
    let x = y + capped;
    if x - 1 > s {
        lemma_mul_le(s + 1, s + 1, x - 1, x - 1);
        lemma_mul_le(x - 1, x - 1, y + t - 1, y + t - 1);
    }
}

/// The quotient stage of the estimator, in words: the high remainder and
/// the low word's top bits divided by the high root.
fn sqrt_estimate_from_high_root(high: u64, low: u64, high_root: u64) -> (r: u64)
    requires
        high >= 0x4000_0000_0000_0000,
        is_isqrt(high as int, high_root as int),
    ensures
        isqrt_spec(two_words(high, low) as nat) <= r <= isqrt_spec(two_words(high, low) as nat) + 1,
        r >= 0x8000_0000_0000_0000,
{
    let ghost h = high_root as int;
    proof {
        lemma_estimate_brackets_root(high, low, h, (((high - h * h) * word() + low) / (h * 0x2_0000_0000)));
        assert(high_root * high_root <= 0xffff_ffff * 0xffff_ffff) by (nonlinear_arith)
            requires
                high_root <= 0xffff_ffff,
        ;
    }
    let high_remainder = high - high_root * high_root;
    let low_high = low >> 32;
    proof {
        assert(high_remainder <= 2 * h) by (nonlinear_arith)
            requires
                high < (h + 1) * (h + 1),
                high_remainder == high - h * h,
        ;
        assert(low_high == low / 0x1_0000_0000 && (high_remainder << 31u64) | (low_high >> 1u64) == high_remainder * 0x8000_0000 + low_high / 2) by (bit_vector)
            requires
                low_high == low >> 32u64,
                high_remainder <= 0x1_FFFF_FFFE,
        ;
    }
    let numerator = (high_remainder << 31) | (low_high >> 1);
    let quotient = numerator / high_root;
    proof {
        // Nested floors divide by the product: numerator / h is
        // (rem * 2^64 + low) / (2^33 * h).
        let big_r = high_remainder * word() + low;
        vstd::arithmetic::div_mod::lemma_div_denominator(low as int, 0x1_0000_0000, 2);
        lemma_div_mod(low as int, 0x2_0000_0000);
        assert(numerator == big_r / 0x2_0000_0000) by {
            lemma_div_unique(big_r, 0x2_0000_0000, high_remainder * 0x8000_0000 + (low as int) / 0x2_0000_0000, (low as int) % 0x2_0000_0000);
        }
        vstd::arithmetic::div_mod::lemma_div_denominator(big_r, 0x2_0000_0000, h);
        assert(0x2_0000_0000 * h == h * 0x2_0000_0000);
    }
    sqrt_estimate_from_quotient(high_root, quotient)
}

} // verus!

verus! {

/// The downward cut: `root - 1` when `root^2` (given as two words) exceeds
/// `high * 2^64 + low`.
pub fn sqrt_adjust_down_from_square(
    high: u64,
    low: u64,
    root: u64,
    square_high: u64,
    square_low: u64,
) -> (r: Option<u64>)
    requires
        root > 0,
    ensures
        r == (if two_words(square_high, square_low) > two_words(high, low) {
            Some((root - 1) as u64)
        } else {
            None::<u64>
        }),
{
    if square_high > high || (square_high == high && square_low > low) {
        Some(root - 1)
    } else {
        None
    }
}

/// One downward correction of an estimate that is the root or one above.
fn sqrt_adjust_down(high: u64, low: u64, root: u64) -> (r: u64)
    requires
        root > 0,
        isqrt_spec(two_words(high, low) as nat) <= root <= isqrt_spec(two_words(high, low) as nat) + 1,
    ensures
        r == isqrt_spec(two_words(high, low) as nat),
{
    let (square_high, square_low) = widening_mul(root, root);
    proof {
        let n = two_words(high, low);
        lemma_isqrt_spec(n as nat);
        let s = isqrt_spec(n as nat) as int;
        if root == s {
            assert(two_words(square_high, square_low) <= n);
        } else {
            assert(two_words(square_high, square_low) > n);
        }
    }
    if let Some(next) = sqrt_adjust_down_from_square(high, low, root, square_high, square_low) {
        next
    } else {
        root
    }
}

/// The root of a two-word value whose high word is at least `2^62`: the
/// estimator is the floor or one above it, and one correction settles it.
fn sqrt_normalized(high: u64, low: u64) -> (r: u64)
    requires
        high >= 0x4000_0000_0000_0000,
    ensures
        r == isqrt_spec(two_words(high, low) as nat),
{
    let high_root = isqrt_u64(high);
    let root = sqrt_estimate_from_high_root(high, low, high_root);
    sqrt_adjust_down(high, low, root)
}

/// Shifts a two-word value left by an even amount so that its high word is
/// at least `2^62`; returns the shifted words and the shift.
pub fn normalize_sqrt_words(high: u64, low: u64) -> (r: (u64, u64, u64))
    requires
        high != 0,
    ensures
        r.2 % 2 == 0,
        r.2 <= 62,
        r.0 >= 0x4000_0000_0000_0000,
        two_words(r.0, r.1) == two_words(high, low) * pow2(r.2 as nat),
{
    let lz = high.leading_zeros() as u64;
    proof {
        lemma_leading_zeros(high, lz);
    }
    let shift = lz & !1;
    proof {
        assert(shift % 2 == 0 && shift <= lz && lz <= shift + 1) by (bit_vector)
            requires
                shift == lz & !1u64,
        ;
        assert(shift <= 62) by (bit_vector)
            requires
                shift == lz & !1u64,
                lz < 64,
        ;
        vstd::bits::lemma_u64_pow2_no_overflow(shift as nat);
        vstd::bits::lemma_u64_shl_is_mul(1, shift);
    }
    if shift == 0 {
        proof {
            assert(high >= 0x4000_0000_0000_0000) by (bit_vector)
                requires
                    (high >> ((63 - lz) as u64)) & 1 != 0,
                    lz <= 1,
            ;
            vstd::arithmetic::power2::lemma2_to64();
        }
        (high, low, shift)
    } else {
        proof {
            assert(high >> ((64 - shift) as u64) == 0) by (bit_vector)
                requires
                    lz > 0 ==> high >> ((64 - lz) as u64) == 0,
                    0 < shift <= lz,
                    lz < 64,
            ;
            assert((high << shift) >= 0x4000_0000_0000_0000) by (bit_vector)
                requires
                    (high >> ((63 - lz) as u64)) & 1 != 0,
                    shift <= lz <= shift + 1,
                    0 < shift < 64,
            ;
            assert(((high << shift) | (low >> ((64 - shift) as u64))) >= (high << shift)) by (bit_vector);
            lemma_normalize_words(high, low, shift);
        }
        ((high << shift) | (low >> (64 - shift)), low << shift, shift)
    }
}

/// A left shift of a two-word value by `s`, with no bits lost from the
/// high word, multiplies it by `2^s`.
proof fn lemma_normalize_words(high: u64, low: u64, s: u64)
    requires
        0 < s < 64,
        high >> ((64 - s) as u64) == 0,
    ensures
        two_words((high << s) | (low >> ((64 - s) as u64)), low << s) == two_words(high, low) * pow2(s as nat),
{
    assert((high << s) | (low >> ((64 - s) as u64)) == high * (1u64 << s) + (low >> ((64 - s) as u64)))
        by (bit_vector)
        requires
            0 < s < 64,
            high >> ((64 - s) as u64) == 0,
    ;
    assert((low >> ((64 - s) as u64)) * 0x1_0000_0000_0000_0000 + (low << s) == low * (1u64 << s))
        by (bit_vector)
        requires
            0 < s < 64,
    ;
    vstd::bits::lemma_u64_pow2_no_overflow(s as nat);
    vstd::bits::lemma_u64_shl_is_mul(1, s);
    let p = (1u64 << s) as int;
    let lh = (low >> ((64 - s) as u64)) as int;
    assert((high * p + lh) * word() + (low << s) == (high * word() + low) * p) by (nonlinear_arith)
        requires
            lh * word() + (low << s) == low * p,
    ;
}

/// Scaling a value by `4^k` scales its integer root by `2^k`.
proof fn lemma_isqrt_scaled(n: int, k: nat)
    requires
        n >= 0,
    ensures
        (isqrt_spec((n * pow2(2 * k)) as nat) as int) / (pow2(k) as int) == isqrt_spec(n as nat),
{
    let p = pow2(k) as int;
    lemma_pow2_pos(k);
    lemma_pow2_adds(k, k);
    assert(pow2(2 * k) == p * p);
    assert(n * (p * p) >= 0) by (nonlinear_arith)
        requires
            n >= 0,
    ;
    let m = n * (p * p);
    lemma_isqrt_spec(m as nat);
    lemma_isqrt_spec(n as nat);
    let big_s = isqrt_spec(m as nat) as int;
    let s = isqrt_spec(n as nat) as int;
    lemma_div_mod(big_s, p);
    let t = big_s / p;
    // t^2 <= n: (t p)^2 <= S^2 <= n p^2.
    lemma_mul_le(t * p, t * p, big_s, big_s);
    assert(t * t <= n) by (nonlinear_arith)
        requires
            (t * p) * (t * p) <= n * (p * p),
            p > 0,
    ;
    // n < (t + 1)^2: (S + 1)^2 <= ((t + 1) p)^2.
    assert(big_s + 1 <= (t + 1) * p) by (nonlinear_arith)
        requires
            big_s == t * p + big_s % p,
            big_s % p < p,
    ;
    lemma_mul_le(big_s + 1, big_s + 1, (t + 1) * p, (t + 1) * p);
    assert(n < (t + 1) * (t + 1)) by (nonlinear_arith)
        requires
            n * (p * p) < (big_s + 1) * (big_s + 1),
            (big_s + 1) * (big_s + 1) <= ((t + 1) * p) * ((t + 1) * p),
            p > 0,
    ;
    assert(t >= 0);
    lemma_isqrt_unique(n, t, s);
}

} // verus!

verus! {

/// The root of a two-word value and whether it is exact.
fn sqrt_words(high: u64, low: u64) -> (r: (u64, bool))
    ensures
        r.0 == isqrt_spec(two_words(high, low) as nat),
        r.1 == (r.0 * r.0 == two_words(high, low)),
{
    let root = if high == 0 {
        let root = isqrt_u64(low);
        proof {
            lemma_isqrt_spec(low as nat);
            lemma_isqrt_unique(low as int, root as int, isqrt_spec(low as nat) as int);
        }
        root
    } else {
        let (normalized_high, normalized_low, shift) = normalize_sqrt_words(high, low);
        let scaled_root = sqrt_normalized(normalized_high, normalized_low);
        proof {
            let k = (shift / 2) as nat;
            assert(2 * k == shift as nat);
            lemma_isqrt_scaled(two_words(high, low), k);
            lemma_shr_is_div_pow(scaled_root, shift / 2);
        }
        scaled_root >> (shift / 2)
    };
    let (square_high, square_low) = widening_mul(root, root);
    (root, square_high == high && square_low == low)
}

/// The integer square root of a 128-bit value.
pub fn isqrt(value: u128) -> (r: u128)
    ensures
        is_isqrt(value as int, r as int),
{
    let high = (value >> 64) as u64;
    let low = value as u64;
    proof {
        assert(value == ((value >> 64u128) as u64) * 0x1_0000_0000_0000_0000u128 + (value as u64)) by (bit_vector);
        lemma_isqrt_spec(value as nat);
    }
    let (root, _) = sqrt_words(high, low);
    root as u128
}

/// The root of `value * scale` and whether it is exact.
fn sqrt_scaled(value: u64, scale: u64) -> (r: Result<(u64, bool), MathError>)
    ensures
        isqrt_spec((value * scale) as nat) <= u64::MAX,
        scale == 0 ==> r == Err::<(u64, bool), MathError>(MathError::DivByZero),
        scale != 0 ==> r == Ok::<(u64, bool), MathError>((
            isqrt_spec((value * scale) as nat) as u64,
            isqrt_spec((value * scale) as nat) * isqrt_spec((value * scale) as nat) == value * scale,
        )),
{
    proof {
        lemma_mul_le(value as int, scale as int, u64::MAX as int, u64::MAX as int);
        lemma_isqrt_spec((value * scale) as nat);
        let s = isqrt_spec((value * scale) as nat) as int;
        if s > u64::MAX {
            lemma_mul_le(u64::MAX as int + 1, u64::MAX as int + 1, s, s);
        }
    }
    if scale == 0 {
        return Err(MathError::DivByZero);
    }
    let (high, low) = widening_mul(value, scale);
    Ok(sqrt_words(high, low))
}

/// `floor(sqrt(value * scale))` exactly; a zero scale is `DivByZero`.
pub fn sqrt_floor(value: u64, scale: u64) -> (r: Result<u64, MathError>)
    ensures
        scale == 0 ==> r == Err::<u64, MathError>(MathError::DivByZero),
        scale != 0 ==> (r matches Ok(root) && is_isqrt(value * scale, root as int)),
{
    proof {
        lemma_mul_le(value as int, scale as int, u64::MAX as int, u64::MAX as int);
        lemma_isqrt_spec((value * scale) as nat);
    }
    match sqrt_scaled(value, scale) {
        Ok((root, _)) => Ok(root),
        Err(error) => Err(error),
    }
}

/// The ceiling from the floor root and its exactness.
pub fn sqrt_ceil_from_floor(root: u64, exact: bool) -> (r: Result<u64, MathError>)
    ensures
        r == (if exact {
            Ok(root)
        } else if root == u64::MAX {
            Err(MathError::Overflow)
        } else {
            Ok((root + 1) as u64)
        }),
{
    match root.checked_add(if exact { 0 } else { 1 }) {
        Some(rounded) => Ok(rounded),
        None => Err(MathError::Overflow),
    }
}

/// `ceil(sqrt(value * scale))` exactly; a zero scale is `DivByZero`.
///
/// The ceiling never overflows: the largest product `(2^64 - 1)^2` has an
/// exact root.
pub fn sqrt_ceil(value: u64, scale: u64) -> (r: Result<u64, MathError>)
    ensures
        scale == 0 ==> r == Err::<u64, MathError>(MathError::DivByZero),
        scale != 0 ==> (r matches Ok(root) && is_ceil_sqrt(value * scale, root as int)),
{
    let (root, exact) = match sqrt_scaled(value, scale) {
        Ok(pair) => pair,
        Err(error) => return Err(error),
    };
    proof {
        let n = value * scale;
        lemma_mul_le(value as int, scale as int, u64::MAX as int, u64::MAX as int);
        lemma_isqrt_spec(n as nat);
        if root == u64::MAX {
            assert(exact);
        }
        if !exact {
            assert(root * root < n);
            assert(n <= (root + 1) * (root + 1));
        }
        if exact && root > 0 {
            lemma_square_lt(root - 1, root as int);
        }
    }
    sqrt_ceil_from_floor(root, exact)
}

} // verus!
