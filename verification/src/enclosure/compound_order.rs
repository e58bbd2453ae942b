//! The compounding evaluations are ordered on the series path: the
//! bracketing series for `ln(1 + x)` keeps its lower sum at or below its
//! upper one, each later step is monotone, and the `exp2` evaluations are
//! ordered.
use crate::arith::{ceil_div, directed, lemma_directed, lemma_div_le, lemma_mul_le};
use crate::enclosure::exp2_order::lemma_exp2_q_ordered;
use crate::kernel::compound::{beyond_series_domain_spec, compound_spec, ln1p_spec, ln1p_sums, power_q, INV_LN2_LOWER, INV_LN2_UPPER};
use crate::kernel::scale::{lemma_q_is_pow2, mul_signed_q_spec, saturate_exponent, Q};
use vstd::prelude::*;

verus! {

/// A directed power of a smaller base rounded down never exceeds one of a
/// larger base rounded up.
proof fn lemma_power_q_ordered(x_lower: int, x_upper: int, k: nat)
    requires
        0 <= x_lower <= x_upper,
    ensures
        0 <= power_q(x_lower, k, false) <= power_q(x_upper, k, true),
    decreases k,
{
    if k > 1 {
        lemma_power_q_ordered(x_lower, x_upper, (k - 1) as nat);
        let pl = power_q(x_lower, (k - 1) as nat, false);
        let pu = power_q(x_upper, (k - 1) as nat, true);
        lemma_q_is_pow2();
        lemma_mul_le(pl, x_lower, pu, x_upper);
        lemma_directed(pl * x_lower, Q as int);
        lemma_directed(pu * x_upper, Q as int);
        lemma_div_le(0, pl * x_lower, Q as int);
        lemma_div_le(pl * x_lower, pu * x_upper, Q as int);
    }
}

/// One series term: the lower power rounded down over `d` never exceeds
/// the upper power rounded up over `d`, and neither is negative.
proof fn lemma_term_ordered(x_lower: int, x_upper: int, d: nat)
    requires
        0 <= x_lower <= x_upper,
        d > 0,
    ensures
        0 <= power_q(x_lower, d, false) / (d as int) <= ceil_div(power_q(x_upper, d, true), d as int),
{
    lemma_power_q_ordered(x_lower, x_upper, d);
    let pl = power_q(x_lower, d, false);
    let pu = power_q(x_upper, d, true);
    lemma_div_le(0, pl, d as int);
    lemma_div_le(pl, pu, d as int);
    lemma_directed(pu, d as int);
}

/// The lower bound of `ln(1 + x)` never exceeds the upper one.
pub proof fn lemma_ln1p_ordered(x_lower: int, x_upper: int)
    requires
        0 <= x_lower <= x_upper,
    ensures
        0 <= ln1p_spec(x_lower, x_upper).0 <= ln1p_spec(x_lower, x_upper).1,
{
    reveal_with_fuel(ln1p_sums, 7);
    lemma_term_ordered(x_lower, x_upper, 1);
    lemma_term_ordered(x_lower, x_upper, 2);
    lemma_term_ordered(x_lower, x_upper, 3);
    lemma_term_ordered(x_lower, x_upper, 4);
    lemma_term_ordered(x_lower, x_upper, 5);
    lemma_term_ordered(x_lower, x_upper, 6);
    let s = ln1p_sums(x_lower, x_upper, 6);
    assert(s.0 <= s.2);
    assert(s.3 <= s.1);
}

/// The signed Q61 product grows with its first factor when the second is
/// nonnegative, from the rounded-down product to the rounded-up one.
proof fn lemma_mul_signed_q_ordered(a1: int, a2: int, b: int)
    requires
        0 <= a1 <= a2,
        b >= 0,
    ensures
        mul_signed_q_spec(a1, b, false) <= mul_signed_q_spec(a2, b, true),
{
    lemma_q_is_pow2();
    lemma_mul_le(a1, b, a2, b);
    if a2 * b <= u128::MAX {
        lemma_directed(a1 * b, Q as int);
        lemma_directed(a2 * b, Q as int);
        lemma_div_le(a1 * b, a2 * b, Q as int);
    }
}

/// `compound_lower` never exceeds `compound_upper` on the series path.
proof fn lemma_compound_series_ordered(rate: u64, periods: u64, elapsed: u64, scale: u64)
    requires
        scale > 0,
        periods > 0,
        elapsed > 0,
        rate > 0,
        !beyond_series_domain_spec(rate, periods, scale),
    ensures
        compound_spec(rate, periods, elapsed, scale, false) matches Ok(lower) ==> (compound_spec(
            rate,
            periods,
            elapsed,
            scale,
            true,
        ) matches Ok(upper) ==> lower <= upper),
{
    lemma_q_is_pow2();
    let d = periods * scale;
    lemma_mul_le(1, 1, periods as int, scale as int);
    assert(rate * Q >= 0) by (nonlinear_arith)
        requires
            rate >= 0,
            Q >= 0,
    ;
    lemma_directed(rate * Q, d);
    let x_lower = (rate * Q) / d;
    let x_upper = ceil_div(rate * Q, d);
    lemma_ln1p_ordered(x_lower, x_upper);
    let ln = ln1p_spec(x_lower, x_upper);
    lemma_mul_le(ln.0, INV_LN2_LOWER as int, ln.1, INV_LN2_UPPER as int);
    lemma_directed(ln.0 * (INV_LN2_LOWER as int), Q as int);
    lemma_directed(ln.1 * (INV_LN2_UPPER as int), Q as int);
    lemma_div_le(0, ln.0 * (INV_LN2_LOWER as int), Q as int);
    lemma_div_le(ln.0 * (INV_LN2_LOWER as int), ln.1 * (INV_LN2_UPPER as int), Q as int);
    let log_lower = directed(ln.0 * (INV_LN2_LOWER as int), Q as int, false);
    let log_upper = directed(ln.1 * (INV_LN2_UPPER as int), Q as int, true);
    assert(elapsed * Q >= 0) by (nonlinear_arith)
        requires
            elapsed >= 0,
            Q >= 0,
    ;
    lemma_mul_signed_q_ordered(log_lower, log_upper, elapsed * Q);
    lemma_exp2_q_ordered(
        mul_signed_q_spec(log_lower, elapsed * Q, false),
        mul_signed_q_spec(log_upper, elapsed * Q, true),
        scale as int,
    );
}

/// `compound_lower` never exceeds `compound_upper`.
pub proof fn lemma_compound_ordered(rate: u64, periods: u64, elapsed: u64, scale: u64)
    ensures
        compound_spec(rate, periods, elapsed, scale, false) matches Ok(lower) ==> (compound_spec(
            rate,
            periods,
            elapsed,
            scale,
            true,
        ) matches Ok(upper) ==> lower <= upper),
{
    if elapsed == 0 || rate == 0 || beyond_series_domain_spec(rate, periods, scale) {
        crate::enclosure::lemma_compound_encloses(rate, periods, elapsed, scale, false);
    } else if scale > 0 && periods > 0 {
        lemma_compound_series_ordered(rate, periods, elapsed, scale);
    }
}

} // verus!
