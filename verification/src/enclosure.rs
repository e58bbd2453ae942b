//! What it means for a fixed-point result to bound a real value, stated in
//! integers by raising both sides to whole powers, and the facts that carry
//! exact cases over to those statements.
use crate::arith::{directed, lemma_directed, lemma_div_mod, lemma_mul_le};
use crate::error::MathError;
use crate::kernel::compound::compound_spec;
use crate::kernel::exp2::exp2_spec;
use crate::kernel::log2::log2_spec;
use crate::laws::{law_exp2_integer_exponent, law_log2_exact_power};
use crate::kernel::log2::is_exact_log2;
use crate::kernel::pow::encloses;
use vstd::arithmetic::power::pow;
use vstd::arithmetic::power2::{lemma_pow2_pos, pow2};
pub mod compound_order;
pub mod exp2_order;
pub mod exp2_table;
pub mod log2_order;
pub mod log2_table;
pub mod squaring;

use vstd::prelude::*;

verus! {

/// `bound` is a lower (`up == false`) or upper (`up == true`) bound of
/// `scale * 2^(exponent / scale)`, raised to the power `scale` to stay in
/// integers: `bound^scale` against `scale^scale * 2^exponent`.
pub open spec fn exp2_encloses(bound: int, exponent: int, scale: int, up: bool) -> bool {
    let lhs = if exponent >= 0 {
        pow(bound, scale as nat)
    } else {
        pow(bound, scale as nat) * pow2((-exponent) as nat)
    };
    let rhs = if exponent >= 0 {
        pow(scale, scale as nat) * pow2(exponent as nat)
    } else {
        pow(scale, scale as nat)
    };
    if up {
        lhs >= rhs
    } else {
        lhs <= rhs
    }
}

/// `bound` is a lower (`up == false`) or upper (`up == true`) bound of
/// `scale * log2(value / scale)`: `2^bound * scale^scale` against
/// `value^scale`.
pub open spec fn log2_encloses(bound: int, value: int, scale: int, up: bool) -> bool {
    let lhs = if bound >= 0 {
        pow2(bound as nat) * pow(scale, scale as nat)
    } else {
        pow(scale, scale as nat)
    };
    let rhs = if bound >= 0 {
        pow(value, scale as nat)
    } else {
        pow(value, scale as nat) * pow2((-bound) as nat)
    };
    if up {
        lhs >= rhs
    } else {
        lhs <= rhs
    }
}

/// `bound` is a lower (`up == false`) or upper (`up == true`) bound of
/// `scale * (base / scale)^(exponent / scale)`:
/// `bound^scale * scale^exponent` against `base^exponent * scale^scale`.
pub open spec fn pow_encloses(bound: int, base: int, exponent: int, scale: int, up: bool) -> bool {
    let lhs = pow(bound, scale as nat) * pow(scale, exponent as nat);
    let rhs = pow(base, exponent as nat) * pow(scale, scale as nat);
    if up {
        lhs >= rhs
    } else {
        lhs <= rhs
    }
}

/// `bound` is a lower (`up == false`) or upper (`up == true`) bound of
/// `scale * (1 + (rate / scale) / periods)^elapsed`:
/// `bound * (scale * periods)^elapsed` against
/// `scale * (scale * periods + rate)^elapsed`.
pub open spec fn compound_encloses(bound: int, rate: int, periods: int, elapsed: int, scale: int, up: bool) -> bool {
    let lhs = bound * pow(scale * periods, elapsed as nat);
    let rhs = scale * pow(scale * periods + rate, elapsed as nat);
    if up {
        lhs >= rhs
    } else {
        lhs <= rhs
    }
}

/// Powers of nonnegative integers are monotone in the base.
proof fn lemma_pow_base_mono(x: int, y: int, n: nat)
    requires
        0 <= x <= y,
    ensures
        0 <= pow(x, n) <= pow(y, n),
    decreases n,
{
    reveal(pow);
    if n > 0 {
        lemma_pow_base_mono(x, y, (n - 1) as nat);
        let a = pow(x, (n - 1) as nat);
        let b = pow(y, (n - 1) as nat);
        assert(x * a <= y * b && 0 <= x * a) by (nonlinear_arith)
            requires
                0 <= x <= y,
                0 <= a <= b,
        ;
    }
}

/// `(2^a)^n == 2^(a * n)`.
proof fn lemma_pow2_power(a: nat, n: nat)
    ensures
        pow(pow2(a) as int, n) == pow2(a * n),
{
    vstd::arithmetic::power2::lemma_pow2(a);
    vstd::arithmetic::power2::lemma_pow2(a * n);
    vstd::arithmetic::power::lemma_pow_multiplies(2, a, n);
}

/// Raising `x * p` against `c` to the power `n` keeps the inequality, as
/// `x^n * p^n` against `c^n`.
proof fn lemma_power_of_inequality(x: int, p: int, c: int, n: nat, up: bool)
    requires
        x >= 0,
        p >= 0,
        c >= 0,
        up ==> x * p >= c,
        !up ==> x * p <= c,
    ensures
        up ==> pow(x, n) * pow(p, n) >= pow(c, n),
        !up ==> pow(x, n) * pow(p, n) <= pow(c, n),
{
    vstd::arithmetic::power::lemma_pow_distributes(x, p, n);
    assert(x * p >= 0) by (nonlinear_arith)
        requires
            x >= 0,
            p >= 0,
    ;
    if up {
        lemma_pow_base_mono(c, x * p, n);
    } else {
        lemma_pow_base_mono(x * p, c, n);
    }
}

/// `scale * 2^k` is exactly `scale * 2^(k * scale / scale)`, so it bounds it
/// from both sides.
pub proof fn lemma_exp2_whole_encloses(bound: int, k: int, scale: int, up: bool)
    requires
        scale > 0,
        k >= 0,
        bound == scale * pow2(k as nat),
    ensures
        exp2_encloses(bound, k * scale, scale, up),
{
    let n = scale as nat;
    lemma_pow2_pos(k as nat);
    vstd::arithmetic::power::lemma_pow_distributes(scale, pow2(k as nat) as int, n);
    lemma_pow2_power(k as nat, n);
    assert((k as nat) * n == k * scale) by (nonlinear_arith)
        requires
            k >= 0,
            n == scale,
    ;
    assert(k * scale >= 0) by (nonlinear_arith)
        requires
            k >= 0,
            scale > 0,
    ;
}

/// `scale / 2^m` rounded in the bound's direction bounds
/// `scale * 2^(-m * scale / scale)` on that side.
pub proof fn lemma_exp2_fraction_encloses(m: nat, scale: int, up: bool)
    requires
        scale > 0,
        m > 0,
    ensures
        exp2_encloses(directed(scale, pow2(m) as int, up), -(m * scale), scale, up),
        directed(scale, pow2(m) as int, false) <= directed(scale, pow2(m) as int, true),
        0 <= directed(scale, pow2(m) as int, false),
        directed(scale, pow2(m) as int, true) <= scale,
{
    let n = scale as nat;
    let p = pow2(m) as int;
    lemma_pow2_pos(m);
    lemma_pow2_power(m, n);
    lemma_directed(scale, p);
    assert(m * n == m * scale);
    assert(m * scale > 0) by (nonlinear_arith)
        requires
            m > 0,
            scale > 0,
    ;
    lemma_power_of_inequality(directed(scale, p, up), p, scale, n, up);
    assert(scale <= scale * p) by (nonlinear_arith)
        requires
            scale > 0,
            p >= 1,
    ;
    crate::arith::lemma_ceil_le_iff(scale, p, scale);
}

/// An exact power of two `value / scale == 2^j` has the logarithm `j` units
/// of `scale`, on both sides.
pub proof fn lemma_log2_exact_encloses(value: int, scale: int, j: int, up: bool)
    requires
        value > 0,
        scale > 0,
        is_exact_log2(value, scale, j),
    ensures
        log2_encloses(j * scale, value, scale, up),
{
    let n = scale as nat;
    if j >= 0 {
        lemma_pow2_power(j as nat, n);
        vstd::arithmetic::power::lemma_pow_distributes(scale, pow2(j as nat) as int, n);
        assert((j as nat) * n == j * scale) by (nonlinear_arith)
            requires
                j >= 0,
                n == scale,
        ;
        assert(j * scale >= 0) by (nonlinear_arith)
            requires
                j >= 0,
                scale > 0,
        ;
        assert(((j * scale) as nat) == (j as nat) * n);
        assert(pow2((j * scale) as nat) == pow2((j as nat) * n));
        assert(pow(value, n) == pow(scale, n) * pow(pow2(j as nat) as int, n));
        let a = pow2((j * scale) as nat) as int;
        let b = pow(scale, n);
        assert(a * b == b * a) by (nonlinear_arith);
    } else {
        let m = (-j) as nat;
        lemma_pow2_power(m, n);
        vstd::arithmetic::power::lemma_pow_distributes(value, pow2(m) as int, n);
        assert(m * n == -(j * scale)) by (nonlinear_arith)
            requires
                m == -j,
                n == scale,
        ;
        assert(j * scale < 0) by (nonlinear_arith)
            requires
                j < 0,
                scale > 0,
        ;
        assert(((-(j * scale)) as nat) == m * n);
        assert(pow2((-(j * scale)) as nat) == pow2(m * n));
        assert(pow(scale, n) == pow(value, n) * pow(pow2(m) as int, n));
    }
}

/// A bound of `(base / scale)^k` from directed squaring bounds
/// `(base / scale)^(k * scale / scale)` on the same side.
pub proof fn lemma_pow_whole_encloses(bound: int, base: int, k: nat, scale: int, up: bool)
    requires
        scale > 0,
        bound >= 0,
        base >= 0,
        encloses(bound, base, k, scale, up),
    ensures
        pow_encloses(bound, base, k * scale, scale, up),
{
    let n = scale as nat;
    let sk = pow(scale, k);
    let bk = pow(base, k);
    vstd::arithmetic::power::lemma_pow_positive(scale, k);
    if base > 0 {
        vstd::arithmetic::power::lemma_pow_positive(base, k);
    } else if k > 0 {
        vstd::arithmetic::power::lemma0_pow(k);
    } else {
        vstd::arithmetic::power::lemma_pow0(base);
    }
    assert(scale * bk >= 0) by (nonlinear_arith)
        requires
            scale > 0,
            bk >= 0,
    ;
    lemma_power_of_inequality(bound, sk, scale * bk, n, up);
    vstd::arithmetic::power::lemma_pow_distributes(scale, bk, n);
    vstd::arithmetic::power::lemma_pow_multiplies(scale, k, n);
    vstd::arithmetic::power::lemma_pow_multiplies(base, k, n);
    assert(k * n == k * scale);
    assert(k * scale >= 0) by (nonlinear_arith)
        requires
            scale > 0,
    ;
    assert((k * scale) as nat == k * n);
}

/// Two bounds of one power from opposite sides are ordered.
pub proof fn lemma_enclosures_ordered(lower: int, upper: int, base: int, k: nat, scale: int)
    requires
        scale > 0,
        encloses(lower, base, k, scale, false),
        encloses(upper, base, k, scale, true),
    ensures
        lower <= upper,
{
    vstd::arithmetic::power::lemma_pow_positive(scale, k);
    let p = pow(scale, k);
    assert(lower <= upper) by (nonlinear_arith)
        requires
            lower * p <= scale * pow(base, k),
            upper * p >= scale * pow(base, k),
            p > 0,
    ;
}

/// One raised to any exponent is one: `scale` itself bounds
/// `scale * (base / scale)^0`, and zero bounds a positive power of zero.
pub proof fn lemma_pow_trivial_encloses(base: int, exponent: int, scale: int, up: bool)
    requires
        scale > 0,
        exponent >= 0,
        exponent == 0 || base == 0,
    ensures
        exponent == 0 ==> pow_encloses(scale, base, exponent, scale, up),
        exponent > 0 ==> pow_encloses(0, base, exponent, scale, up),
{
    let n = scale as nat;
    vstd::arithmetic::power::lemma_pow0(scale);
    vstd::arithmetic::power::lemma_pow0(base);
    vstd::arithmetic::power::lemma_pow_positive(scale, n);
    if exponent > 0 {
        vstd::arithmetic::power::lemma0_pow(n);
        vstd::arithmetic::power::lemma0_pow(exponent as nat);
    }
}

/// With no elapsed period or no rate, the principal itself bounds the
/// compounded value on both sides.
pub proof fn lemma_compound_identity_encloses(rate: int, periods: int, elapsed: int, scale: int, up: bool)
    requires
        elapsed == 0 || rate == 0,
    ensures
        compound_encloses(scale, rate, periods, elapsed, scale, up),
{
    vstd::arithmetic::power::lemma_pow0(scale * periods);
    vstd::arithmetic::power::lemma_pow0(scale * periods + rate);
}

/// With no elapsed period or no rate, both compounding bounds are the
/// principal itself; with a per-period rate beyond `1/256` they come from
/// directed binary squaring. Either way each encloses the compounded value
/// on its side, and the lower does not exceed the upper.
pub proof fn lemma_compound_encloses(rate: u64, periods: u64, elapsed: u64, scale: u64, up: bool)
    requires
        elapsed == 0 || rate == 0 || rate * 256 > periods * scale,
    ensures
        compound_spec(rate, periods, elapsed, scale, up) matches Ok(bound) ==> compound_encloses(
            bound as int,
            rate as int,
            periods as int,
            elapsed as int,
            scale as int,
            up,
        ),
        compound_spec(rate, periods, elapsed, scale, false) matches Ok(lower) ==> (compound_spec(
            rate,
            periods,
            elapsed,
            scale,
            true,
        ) matches Ok(upper) ==> lower <= upper),
{
    if elapsed == 0 || rate == 0 {
        lemma_compound_identity_encloses(rate as int, periods as int, elapsed as int, scale as int, up);
    } else if scale > 0 && periods > 0 {
        squaring::lemma_compound_binary_encloses(rate, periods, elapsed, scale, up);
        squaring::lemma_compound_binary_encloses(rate, periods, elapsed, scale, false);
        squaring::lemma_compound_binary_encloses(rate, periods, elapsed, scale, true);
        if let Ok(lower) = compound_spec(rate, periods, elapsed, scale, false) {
            if let Ok(upper) = compound_spec(rate, periods, elapsed, scale, true) {
                let d = pow(scale * periods, elapsed as nat);
                let n = scale * pow(scale * periods + rate, elapsed as nat);
                lemma_mul_le(1, 1, scale as int, periods as int);
                vstd::arithmetic::power::lemma_pow_positive(scale * periods, elapsed as nat);
                assert(lower <= upper) by (nonlinear_arith)
                    requires
                        lower * d <= n,
                        upper * d >= n,
                        d > 0,
                ;
            }
        }
    }
}

/// At an exponent that is a whole number of units, the `exp2` bounds
/// enclose `scale * 2^(exponent / scale)` and are ordered.
pub proof fn lemma_exp2_integer_exponent_encloses(exponent: i64, scale: u64, up: bool)
    requires
        scale > 0,
        (exponent as int) % (scale as int) == 0,
    ensures
        exp2_spec(exponent as int, scale as int, up) matches Ok(bound) ==> exp2_encloses(bound as int, exponent as int, scale as int, up),
        exp2_spec(exponent as int, scale as int, false) matches Ok(lower) ==> (exp2_spec(exponent as int, scale as int, true) matches Ok(
            upper,
        ) ==> lower <= upper),
{
    let s = scale as int;
    let k = (exponent as int) / s;
    lemma_div_mod(exponent as int, s);
    assert(k * s == exponent as int);
    law_exp2_integer_exponent(k, scale, up);
    law_exp2_integer_exponent(k, scale, false);
    law_exp2_integer_exponent(k, scale, true);
    if k >= 0 {
        lemma_pow2_pos(k as nat);
        assert(s * pow2(k as nat) >= 0) by (nonlinear_arith)
            requires
                s > 0,
                pow2(k as nat) > 0,
        ;
        lemma_exp2_whole_encloses(s * pow2(k as nat), k, s, up);
    } else {
        let m = (-k) as nat;
        lemma_exp2_fraction_encloses(m, s, up);
        lemma_exp2_fraction_encloses(m, s, false);
        assert(-(m * s) == exponent as int) by (nonlinear_arith)
            requires
                k * s == exponent as int,
                m == -k,
        ;
    }
}

/// When `value / scale` is an exact power of two, the `log2` bounds enclose
/// `scale * log2(value / scale)` and are ordered (they are equal).
pub proof fn lemma_log2_exact_power_encloses(value: u64, scale: u64, up: bool)
    requires
        value > 0,
        scale > 0,
    ensures
        (exists|j: int| #[trigger] is_exact_log2(value as int, scale as int, j)) ==> (log2_spec(value as int, scale as int, up) matches Ok(
            bound,
        ) ==> log2_encloses(bound as int, value as int, scale as int, up)),
        (exists|j: int| #[trigger] is_exact_log2(value as int, scale as int, j)) ==> (log2_spec(value as int, scale as int, false) matches Ok(
            lower,
        ) ==> (log2_spec(value as int, scale as int, true) matches Ok(upper) ==> lower <= upper)),
{
    if exists|j: int| #[trigger] is_exact_log2(value as int, scale as int, j) {
        let j = choose|j: int| #[trigger] is_exact_log2(value as int, scale as int, j);
        law_log2_exact_power(value, scale, j, up);
        law_log2_exact_power(value, scale, j, false);
        law_log2_exact_power(value, scale, j, true);
        lemma_log2_exact_encloses(value as int, scale as int, j, up);
    }
}

} // verus!
