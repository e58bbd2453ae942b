//! Mathematical definitions and arithmetic lemmas shared by the kernels.
use vstd::arithmetic::div_mod::*;
use vstd::arithmetic::mul::*;
use crate::error::MathError;
use vstd::prelude::*;

verus! {

/// `2^32`, one half-word.
pub open spec fn half_word() -> int {
    0x1_0000_0000
}

/// `2^64`, one machine word.
pub open spec fn word() -> int {
    0x1_0000_0000_0000_0000
}

/// The two-word number `high * 2^64 + low`.
pub open spec fn two_words(high: u64, low: u64) -> int {
    high * word() + low
}

/// `r` is the integer square root of `n`: `r^2 <= n < (r + 1)^2`.
pub open spec fn is_isqrt(n: int, r: int) -> bool {
    0 <= r && r * r <= n && n < (r + 1) * (r + 1)
}

/// `10^k`.
pub open spec fn pow10(k: nat) -> nat
    decreases k,
{
    if k == 0 {
        1
    } else {
        10 * pow10((k - 1) as nat)
    }
}

/// Floor of `x / d` rounded toward positive infinity: `ceil(x / d)` for `d > 0`.
pub open spec fn ceil_div(x: int, d: int) -> int {
    if x % d == 0 {
        x / d
    } else {
        x / d + 1
    }
}

/// Euclidean division facts in one call: `x == (x / d) * d + x % d` with
/// `0 <= x % d < d`.
pub proof fn lemma_div_mod(x: int, d: int)
    requires
        d > 0,
    ensures
        x == (x / d) * d + x % d,
        0 <= x % d < d,
{
    lemma_fundamental_div_mod(x, d);
    lemma_mul_is_commutative(d, x / d);
    lemma_mod_bound(x, d);
}

/// A quotient/remainder pair is the Euclidean one.
pub proof fn lemma_div_unique(x: int, d: int, q: int, r: int)
    requires
        d > 0,
        0 <= r < d,
        x == q * d + r,
    ensures
        q == x / d,
        r == x % d,
{
    lemma_fundamental_div_mod_converse(x, d, q, r);
}

/// Expansion of a product of two half-word splits.
pub proof fn lemma_mul_split(a: int, b: int, ah: int, al: int, bh: int, bl: int, h: int)
    requires
        a == ah * h + al,
        b == bh * h + bl,
    ensures
        a * b == (ah * bh) * (h * h) + (al * bh + ah * bl) * h + al * bl,
{
    lemma_mul_is_distributive_add_other_way(b, ah * h, al);
    lemma_mul_is_distributive_add(ah * h, bh * h, bl);
    lemma_mul_is_distributive_add(al, bh * h, bl);
    assert((ah * h) * (bh * h) == (ah * bh) * (h * h)) by {
        broadcast use group_mul_properties;
    }
    assert((ah * h) * bl == (ah * bl) * h) by {
        broadcast use group_mul_properties;
    }
    assert(al * (bh * h) == (al * bh) * h) by {
        broadcast use group_mul_properties;
    }
    lemma_mul_is_distributive_add_other_way(h, al * bh, ah * bl);
}

/// Monotonicity of a product of bounded naturals.
pub proof fn lemma_mul_le(a: int, b: int, c: int, d: int)
    by (nonlinear_arith)
    requires
        0 <= a <= c,
        0 <= b <= d,
    ensures
        0 <= a * b <= c * d,
{
}

/// Floor division is monotone in the numerator.
pub proof fn lemma_div_le(x: int, y: int, d: int)
    requires
        d > 0,
        x <= y,
    ensures
        x / d <= y / d,
{
    lemma_div_is_ordered(x, y, d);
}

/// `x / d < k` exactly when `x < k * d`.
pub proof fn lemma_div_lt_iff(x: int, d: int, k: int)
    requires
        d > 0,
        x >= 0,
    ensures
        x / d < k <==> x < k * d,
{
    lemma_div_mod(x, d);
    if x / d < k {
        lemma_mul_le(x / d + 1, d, k, d);
        assert((x / d + 1) * d == (x / d) * d + d) by (nonlinear_arith);
    }
    if x < k * d {
        if x / d >= k {
            if k < 0 {
                lemma_mul_le(0, d, -k, d);
                assert(k * d == -((-k) * d)) by (nonlinear_arith);
            }
            lemma_mul_le(k, d, x / d, d);
        }
    }
}

} // verus!

verus! {

/// The integer square root `floor(sqrt(n))`, built up one unit at a time.
pub open spec fn isqrt_spec(n: nat) -> nat
    decreases n,
{
    if n == 0 {
        0
    } else {
        let r = isqrt_spec((n - 1) as nat);
        if (r + 1) * (r + 1) <= n {
            r + 1
        } else {
            r
        }
    }
}

/// `isqrt_spec` is the integer square root.
pub proof fn lemma_isqrt_spec(n: nat)
    ensures
        is_isqrt(n as int, isqrt_spec(n) as int),
    decreases n,
{
    if n > 0 {
        lemma_isqrt_spec((n - 1) as nat);
        let r = isqrt_spec((n - 1) as nat) as int;
        if (r + 1) * (r + 1) > n {
            assert(n < (r + 1) * (r + 1));
        } else {
            assert(r * r <= n);
            assert((r + 1) * (r + 1) <= n);
            assert(n - 1 < (r + 1) * (r + 1));
            assert(n < (r + 2) * (r + 2)) by (nonlinear_arith)
                requires
                    n == (r + 1) * (r + 1),
                    r >= 0,
            ;
        }
    }
}

/// The integer square root is unique.
pub proof fn lemma_isqrt_unique(n: int, r: int, t: int)
    requires
        is_isqrt(n, r),
        is_isqrt(n, t),
    ensures
        r == t,
{
    if r < t {
        lemma_mul_le(r + 1, r + 1, t, t);
    }
    if t < r {
        lemma_mul_le(t + 1, t + 1, r, r);
    }
}

/// Squares are monotone on naturals, strictly.
pub proof fn lemma_square_lt(a: int, b: int)
    requires
        0 <= a < b,
    ensures
        a * a < b * b,
{
    lemma_mul_le(a, a, b - 1, b - 1);
    assert((b - 1) * (b - 1) < b * b) by (nonlinear_arith)
        requires
            b >= 1,
    ;
}

} // verus!

verus! {

/// `r` is the least natural whose square reaches `n`: `ceil(sqrt(n))`.
pub open spec fn is_ceil_sqrt(n: int, r: int) -> bool {
    0 <= r && n <= r * r && (r == 0 || (r - 1) * (r - 1) < n)
}

} // verus!

verus! {

/// `ceil(x / d) <= n` exactly when `x <= n * d`.
pub proof fn lemma_ceil_le_iff(x: int, d: int, n: int)
    requires
        d > 0,
        x >= 0,
    ensures
        ceil_div(x, d) <= n <==> x <= n * d,
{
    lemma_div_mod(x, d);
    let q = x / d;
    let m = x % d;
    if x % d == 0 {
        if q <= n {
            lemma_mul_le(q, d, n, d);
        } else {
            if x <= n * d {
                lemma_div_lt_iff(x, d, n + 1);
                assert(x < (n + 1) * d) by (nonlinear_arith)
                    requires
                        x <= n * d,
                        d > 0,
                ;
            }
        }
    } else {
        if q + 1 <= n {
            lemma_mul_le(q + 1, d, n, d);
            assert(x < (q + 1) * d) by (nonlinear_arith)
                requires
                    x == q * d + m,
                    m < d,
            ;
        } else {
            if x <= n * d {
                if n >= 0 {
                    lemma_mul_le(n, d, q, d);
                } else {
                    assert(n * d < 0) by (nonlinear_arith)
                        requires
                            n < 0,
                            d > 0,
                    ;
                }
            }
        }
    }
}

} // verus!

verus! {

/// Powers of ten are positive and grow with the exponent.
pub proof fn lemma_pow10_mono(j: nat, k: nat)
    requires
        j <= k,
    ensures
        1 <= pow10(j) <= pow10(k),
    decreases k,
{
    if k > j {
        lemma_pow10_mono(j, (k - 1) as nat);
    } else if k > 0 {
        lemma_pow10_mono(0, (k - 1) as nat);
    }
}

/// `10^(a + b) == 10^a * 10^b`.
pub proof fn lemma_pow10_adds(a: nat, b: nat)
    ensures
        pow10(a + b) == pow10(a) * pow10(b),
    decreases b,
{
    if b > 0 {
        lemma_pow10_adds(a, (b - 1) as nat);
        assert(pow10(a + b) == 10 * pow10((a + b - 1) as nat));
        assert(pow10(a) * pow10(b) == pow10(a) * (10 * pow10((b - 1) as nat)));
        assert(pow10(a) * (10 * pow10((b - 1) as nat)) == 10 * (pow10(a) * pow10((b - 1) as nat))) by (nonlinear_arith);
        assert((a + (b - 1)) as nat == (a + b - 1) as nat);
    } else {
        assert(pow10(a) * pow10(0) == pow10(a)) by (nonlinear_arith)
            requires
                pow10(0) == 1,
        ;
    }
}

} // verus!

verus! {

/// `n / d` rounded toward positive infinity when `up`, else toward negative
/// infinity (for `d > 0`).
pub open spec fn directed(n: int, d: int, up: bool) -> int {
    if up {
        ceil_div(n, d)
    } else {
        n / d
    }
}

/// Floor and ceiling agree on exact divisions and differ by one otherwise.
pub proof fn lemma_directed(n: int, d: int)
    requires
        d > 0,
    ensures
        directed(n, d, false) <= directed(n, d, true) <= directed(n, d, false) + 1,
        directed(n, d, false) * d <= n,
        n <= directed(n, d, true) * d,
        n >= 0 ==> directed(n, d, false) >= 0,
{
    lemma_div_mod(n, d);
    if n % d != 0 {
        assert(n <= (n / d + 1) * d) by (nonlinear_arith)
            requires
                n == (n / d) * d + n % d,
                n % d < d,
        ;
    }
    if n >= 0 {
        if n / d < 0 {
            assert((n / d) * d < 0) by (nonlinear_arith)
                requires
                    n / d < 0,
                    d > 0,
            ;
        }
    }
}

} // verus!

verus! {

/// The magnitude of an integer.
pub open spec fn abs_int(x: int) -> int {
    if x < 0 {
        -x
    } else {
        x
    }
}

/// Negation swaps the rounding direction.
pub proof fn lemma_directed_neg(n: int, d: int, up: bool)
    requires
        d > 0,
    ensures
        directed(-n, d, up) == -directed(n, d, !up),
{
    lemma_div_mod(n, d);
    let q = n / d;
    let m = n % d;
    if m == 0 {
        assert(-n == (-q) * d) by (nonlinear_arith)
            requires
                n == q * d + m,
                m == 0,
        ;
        lemma_div_unique(-n, d, -q, 0);
    } else {
        assert(-n == (-q - 1) * d + (d - m)) by (nonlinear_arith)
            requires
                n == q * d + m,
        ;
        lemma_div_unique(-n, d, -q - 1, d - m);
    }
}

} // verus!

verus! {

/// Two results joined into one: both values when both succeed, else the
/// first error in order.
pub open spec fn pair_results<A, B>(first: Result<A, MathError>, second: Result<B, MathError>) -> Result<(A, B), MathError> {
    match first {
        Err(error) => Err(error),
        Ok(a) => match second {
            Err(error) => Err(error),
            Ok(b) => Ok((a, b)),
        },
    }
}

} // verus!
