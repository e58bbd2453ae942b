//! Properties that hold across the public operations.
use crate::arith::{directed, lemma_directed, lemma_div_mod, lemma_div_unique, lemma_mul_le};
use crate::error::MathError;
use crate::kernel::exp2::{exp2_q_spec, exp2_spec};
use crate::kernel::log2::{
    exact_log2, is_exact_log2, is_log2_floor, lemma_exact_log2_unique, lemma_log2_floor_is, log2_q_pow10_spec,
    log2_q_spec, log2_spec,
};
use crate::kernel::pow::{encloses, mul_div_directed, pow_spec, powi_spec, powi_steps};
use crate::kernel::scale::{lemma_q_is_pow2, Q};
use crate::kernel::wide::{is_decimal_power, lemma_pow10_positive};
use vstd::arithmetic::power2::{lemma_pow2_adds, lemma_pow2_pos, lemma_pow2_strictly_increases, pow2};
use vstd::prelude::*;

verus! {

/// A common positive factor cancels from a directed division.
proof fn lemma_directed_cancel(a: int, b: int, c: int, up: bool)
    requires
        a >= 0,
        b > 0,
        c > 0,
    ensures
        directed(c * a, c * b, up) == directed(a, b, up),
{
    lemma_div_mod(a, b);
    let q = a / b;
    let r = a % b;
    assert(c * a == q * (c * b) + c * r) by (nonlinear_arith)
        requires
            a == q * b + r,
    ;
    assert(0 <= c * r < c * b) by (nonlinear_arith)
        requires
            0 <= r < b,
            c > 0,
    ;
    assert(c * b > 0) by (nonlinear_arith)
        requires
            b > 0,
            c > 0,
    ;
    lemma_div_unique(c * a, c * b, q, c * r);
    assert(c * r == 0 <==> r == 0) by (nonlinear_arith)
        requires
            c > 0,
    ;
}

/// At an integer exponent `k` the bounds of `2^k` are exact: `scale * 2^k`
/// in both directions for `k >= 0` (or `Overflow` beyond a word), and
/// `scale / 2^-k` rounded in the bound's direction for `k < 0`.
pub proof fn law_exp2_integer_exponent(k: int, scale: u64, up: bool)
    requires
        scale > 0,
        i64::MIN <= k * scale <= i64::MAX,
    ensures
        k >= 0 ==> exp2_spec(k * scale, scale as int, up) == (if scale * pow2(k as nat) <= u64::MAX {
            Ok::<u64, MathError>((scale * pow2(k as nat)) as u64)
        } else {
            Err::<u64, MathError>(MathError::Overflow)
        }),
        k < 0 ==> exp2_spec(k * scale, scale as int, up) == Ok::<u64, MathError>(
            directed(scale as int, pow2((-k) as nat) as int, up) as u64,
        ),
{
    reveal(exp2_q_spec);
    lemma_q_is_pow2();
    let s = scale as int;
    let q = Q as int;
    // The exponent enters Q61 exactly.
    assert((k * s) * q == (k * q) * s) by (nonlinear_arith);
    lemma_div_unique((k * q) * s, s, k * q, 0);
    assert(directed(k * s * q, s, up) == k * q);
    lemma_div_unique(k * q, q, k, 0);
    // The projection of `Q * 2^(k - 61)` onto `scale`.
    if k >= 61 {
        lemma_pow2_adds(61, (k - 61) as nat);
        assert(q * s * pow2((k - 61) as nat) == s * pow2(k as nat)) by (nonlinear_arith)
            requires
                pow2(k as nat) == q * pow2((k - 61) as nat),
        ;
    } else if k >= 0 {
        lemma_pow2_adds(k as nat, (61 - k) as nat);
        lemma_pow2_pos((61 - k) as nat);
        let p = pow2((61 - k) as nat) as int;
        assert(q * s == (s * pow2(k as nat)) * p) by (nonlinear_arith)
            requires
                q == pow2(k as nat) * p,
        ;
        lemma_div_unique(q * s, p, s * pow2(k as nat), 0);
    } else {
        let n = (-k) as nat;
        lemma_pow2_adds(61, n);
        lemma_pow2_pos(n);
        assert((61 - k) as nat == 61 + n);
        assert(q * s == s * q);
        lemma_directed_cancel(s, pow2(n) as int, q, up);
        assert(q * pow2(n) == pow2((61 - k) as nat));
        lemma_directed(s, pow2(n) as int);
        vstd::arithmetic::power2::lemma2_to64();
        lemma_pow2_strictly_increases(0, n);
        crate::arith::lemma_ceil_le_iff(s, pow2(n) as int, s);
        lemma_mul_le(s, 1, s, pow2(n) as int);
        crate::arith::lemma_div_le(s, s, pow2(n) as int);
        vstd::arithmetic::div_mod::lemma_div_is_ordered_by_denominator(s, 1, pow2(n) as int);
    }
}

/// An exact power of two is its own logarithm: when `value / scale` is
/// `2^j`, both bounds of `log2(value / scale)` are exactly `j` units of
/// `scale` (or `Overflow` when that does not fit an `i64`).
pub proof fn law_log2_exact_power(value: u64, scale: u64, j: int, up: bool)
    requires
        value > 0,
        scale > 0,
        is_exact_log2(value as int, scale as int, j),
    ensures
        log2_spec(value as int, scale as int, up) == (if i64::MIN <= j * scale <= i64::MAX {
            Ok::<i64, MathError>((j * scale) as i64)
        } else {
            Err::<i64, MathError>(MathError::Overflow)
        }),
{
    reveal(log2_q_spec);
    reveal(log2_q_pow10_spec);
    lemma_q_is_pow2();
    let v = value as int;
    let s = scale as int;
    let q = Q as int;
    if exists|p: int| #[trigger] is_decimal_power(s, p) {
        let p = choose|p: int| #[trigger] is_decimal_power(s, p);
        lemma_pow10_positive(p as nat);
        assert(is_exact_log2(v, crate::arith::pow10(p as nat) as int, j));
        lemma_exact_log2_unique(v, s, j, exact_log2(v, s));
        assert(log2_q_spec(v, s, up) == Ok::<int, MathError>(j * q));
    } else {
        lemma_exact_power_floor(value, scale, j);
        lemma_log2_floor_is(v, s, j);
        let n = v * pow2((63 - j) as nat);
        assert(n == s * 0x8000_0000_0000_0000);
        assert(s * 0x8000_0000_0000_0000 == 0x8000_0000_0000_0000 * s);
        lemma_div_unique(n, s, 0x8000_0000_0000_0000, 0);
        lemma_div_unique(0x8000_0000_0000_0000 - 0x8000_0000_0000_0000, 0x10_0000_0000_0000, 0, 0);
        lemma_div_unique(0, 8, 0, 0);
        crate::enclosure::log2_table::lemma_log2_first_entries();
        assert(log2_q_spec(v, s, up) == Ok::<int, MathError>(j * q));
    }
    assert((j * q) * s == (j * s) * q) by (nonlinear_arith);
    lemma_div_unique((j * s) * q, q, j * s, 0);
}

/// An exact power of two `2^j` of `value / scale` is the floor of its
/// logarithm, with the normalized mantissa exactly `2^63`.
proof fn lemma_exact_power_floor(value: u64, scale: u64, j: int)
    requires
        value > 0,
        scale > 0,
        is_exact_log2(value as int, scale as int, j),
    ensures
        is_log2_floor(value as int, scale as int, j),
        value * pow2((63 - j) as nat) == scale * 0x8000_0000_0000_0000,
{
    let v = value as int;
    let s = scale as int;
    vstd::arithmetic::power2::lemma2_to64_rest();
    if j >= 0 {
        lemma_pow2_pos(j as nat);
        if j >= 64 {
            if j > 64 {
                lemma_pow2_strictly_increases(64, j as nat);
            }
            lemma_mul_le(1, pow2(j as nat) as int, s, pow2(j as nat) as int);
        }
        lemma_pow2_adds(j as nat, (63 - j) as nat);
        assert(v * pow2((63 - j) as nat) == s * pow2(63)) by (nonlinear_arith)
            requires
                v == s * pow2(j as nat),
                pow2(63) == pow2(j as nat) * pow2((63 - j) as nat),
        ;
    } else {
        let n = (-j) as nat;
        lemma_pow2_pos(n);
        if n >= 64 {
            if n > 64 {
                lemma_pow2_strictly_increases(64, n);
            }
            lemma_mul_le(1, pow2(n) as int, v, pow2(n) as int);
        }
        lemma_pow2_adds(n, 63);
        assert((63 - j) as nat == n + 63);
        assert(v * pow2((63 - j) as nat) == s * pow2(63)) by (nonlinear_arith)
            requires
                v * pow2(n) == s,
                pow2((n + 63) as nat) == pow2(n) * pow2(63),
                (63 - j) as nat == n + 63,
        ;
    }
    assert(s * pow2(63) < s * pow2(64)) by (nonlinear_arith)
        requires
            s > 0,
            pow2(63) < pow2(64),
    ;
}

/// An integer exponent makes `pow` the directed binary exponentiation:
/// `pow(base, k * scale, scale) == powi(base, k, scale)` in both
/// directions, for a nonzero base.
pub proof fn law_pow_integer_exponent_is_powi(base: u64, k: u64, scale: u64, up: bool)
    requires
        base != 0,
        scale != 0,
        k >= 1,
        k * scale <= u64::MAX,
    ensures
        pow_spec(base, (k * scale) as u64, scale, up) == powi_spec(base, k, scale, up),
{
    lemma_div_unique(k * scale, scale as int, k as int, 0);
    assert(k * scale >= 1) by (nonlinear_arith)
        requires
            k >= 1,
            scale >= 1,
    ;
}

/// Each step of the directed exponentiation keeps the running values
/// enclosing their powers of the base.
proof fn lemma_powi_steps_encloses(
    result: u64,
    factor: u64,
    exponent: nat,
    scale: u64,
    base: u64,
    done: nat,
    span: nat,
    up: bool,
)
    requires
        scale > 0,
        encloses(result as int, base as int, done, scale as int, up),
        encloses(factor as int, base as int, span, scale as int, up),
    ensures
        powi_steps(result, factor, exponent, scale, up) matches Ok(value) ==> encloses(
            value as int,
            base as int,
            done + span * exponent,
            scale as int,
            up,
        ),
    decreases exponent,
{
    if exponent == 0 {
        assert(span * exponent == 0) by (nonlinear_arith)
            requires
                exponent == 0,
        ;
    } else {
        lemma_directed(result * factor, scale as int);
        lemma_directed(factor * factor, scale as int);
        let stepped = if exponent % 2 == 1 { mul_div_directed(result, factor, scale, up) } else { Ok(result) };
        let done_next: nat = if exponent % 2 == 1 { done + span } else { done };
        if let Ok(next) = stepped {
            if exponent % 2 == 1 {
                crate::kernel::pow::lemma_enclosure_step(
                    result as int,
                    factor as int,
                    next as int,
                    base as int,
                    scale as int,
                    done,
                    span,
                    up,
                );
            }
            assert(span * exponent == 2 * span * (exponent / 2) + span * (exponent % 2)) by (nonlinear_arith)
                requires
                    exponent == 2 * (exponent / 2) + exponent % 2,
            ;
            assert((span + span) * (exponent / 2) == 2 * span * (exponent / 2)) by (nonlinear_arith);
            assert(span * (exponent % 2) == if exponent % 2 == 1 { span as int } else { 0 });
            assert(done_next + (span + span) * (exponent / 2) == done + span * exponent);
            if exponent / 2 == 0 {
                assert(span * exponent == span * (exponent % 2)) by (nonlinear_arith)
                    requires
                        exponent / 2 == 0,
                        exponent == 2 * (exponent / 2) + exponent % 2,
                ;
                assert(done_next == done + span * exponent);
            }
            if exponent / 2 != 0 {
                if let Ok(squared) = mul_div_directed(factor, factor, scale, up) {
                    crate::kernel::pow::lemma_enclosure_step(
                        factor as int,
                        factor as int,
                        squared as int,
                        base as int,
                        scale as int,
                        span,
                        span,
                        up,
                    );
                    lemma_powi_steps_encloses(next, squared, exponent / 2, scale, base, done_next, span + span, up);
                }
            }
        }
    }
}

/// Directed integer powers enclose the exact power: a lower bound `lower`
/// of `(base / scale)^exponent` satisfies `lower * scale^exponent <=
/// scale * base^exponent`, an upper bound the reverse, so the lower bound
/// never exceeds the upper one.
pub proof fn law_powi_encloses(base: u64, exponent: u64, scale: u64, lower: u64, upper: u64)
    requires
        powi_spec(base, exponent, scale, false) == Ok::<u64, MathError>(lower),
        powi_spec(base, exponent, scale, true) == Ok::<u64, MathError>(upper),
    ensures
        encloses(lower as int, base as int, exponent as nat, scale as int, false),
        encloses(upper as int, base as int, exponent as nat, scale as int, true),
        lower <= upper,
{
    let s = scale as int;
    let b = base as int;
    vstd::arithmetic::power::lemma_pow0(s);
    vstd::arithmetic::power::lemma_pow0(b);
    vstd::arithmetic::power::lemma_pow1(s);
    vstd::arithmetic::power::lemma_pow1(b);
    assert(b * s == s * b) by (nonlinear_arith);
    if exponent != 0 {
        lemma_powi_steps_encloses(scale, base, exponent as nat, scale, base, 0, 1, false);
        lemma_powi_steps_encloses(scale, base, exponent as nat, scale, base, 0, 1, true);
    }
    vstd::arithmetic::power::lemma_pow_positive(s, exponent as nat);
    let p = vstd::arithmetic::power::pow(s, exponent as nat);
    assert(lower <= upper) by (nonlinear_arith)
        requires
            lower * p <= s * vstd::arithmetic::power::pow(b, exponent as nat),
            upper * p >= s * vstd::arithmetic::power::pow(b, exponent as nat),
            p > 0,
    ;
}

} // verus!
