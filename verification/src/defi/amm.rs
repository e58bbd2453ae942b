//! Constant-product AMM calculations.
use crate::arith::{ceil_div, is_isqrt, lemma_div_lt_iff, lemma_div_mod, lemma_div_le, lemma_mul_le};
use crate::defi::fee::{fee_spec, lemma_fee_bounded, net_of_fee, BPS_SCALE};
use crate::error::MathError;
use crate::kernel::sqrt::isqrt;
use crate::kernel::wide::{mul_div_ceil, mul_div_floor};
use vstd::prelude::*;

verus! {

/// The net input after the upward-rounded fee.
pub open spec fn net_spec(amount: u64, fee_bps: u16) -> int {
    amount - fee_spec(amount, fee_bps)
}

/// The outcome of an exact-input swap: `floor(reserve_out * net / (reserve_in + net))`.
pub open spec fn quote_exact_in_result(reserve_in: u64, reserve_out: u64, amount_in: u64, fee_bps: u16) -> Result<u64, MathError> {
    if reserve_in == 0 || reserve_out == 0 {
        Err(MathError::OutOfDomain)
    } else if fee_bps > BPS_SCALE {
        Err(MathError::OutOfDomain)
    } else if reserve_in + net_spec(amount_in, fee_bps) > u64::MAX {
        Err(MathError::Overflow)
    } else {
        Ok(((reserve_out * net_spec(amount_in, fee_bps)) / (reserve_in + net_spec(amount_in, fee_bps))) as u64)
    }
}

/// The outcome of an exact-output quote: the least gross input whose
/// exact-input replay reaches `amount_out`.
pub open spec fn quote_exact_out_result(reserve_in: u64, reserve_out: u64, amount_out: u64, fee_bps: u16) -> Result<u64, MathError> {
    if fee_bps > BPS_SCALE || reserve_in == 0 || reserve_out == 0 {
        Err(MathError::OutOfDomain)
    } else if amount_out == 0 {
        Ok(0)
    } else if amount_out >= reserve_out || fee_bps == BPS_SCALE {
        Err(MathError::OutOfDomain)
    } else {
        let required = ceil_div(reserve_in * amount_out, reserve_out - amount_out);
        let gross = ceil_div(required * BPS_SCALE, BPS_SCALE - fee_bps);
        if required > u64::MAX || gross > u64::MAX {
            Err(MathError::Overflow)
        } else if reserve_in + net_spec(gross as u64, fee_bps) > u64::MAX {
            Err(MathError::Overflow)
        } else {
            Ok(gross as u64)
        }
    }
}

/// Returns the output of a constant-product exact-input swap.
///
/// The output is floored, so the pool never over-pays and never drains.
pub fn quote_exact_in(reserve_in: u64, reserve_out: u64, amount_in: u64, fee_bps: u16) -> (r: Result<u64, MathError>)
    ensures
        r == quote_exact_in_result(reserve_in, reserve_out, amount_in, fee_bps),
        r matches Ok(out) ==> out <= reserve_out,
{
    if reserve_in == 0 || reserve_out == 0 {
        return Err(MathError::OutOfDomain);
    }
    let (net, _) = match net_of_fee(amount_in, fee_bps) {
        Ok(pair) => pair,
        Err(error) => return Err(error),
    };
    let denominator = match reserve_in.checked_add(net) {
        Some(denominator) => denominator,
        None => return Err(MathError::Overflow),
    };
    proof {
        lemma_out_below_reserve(reserve_in as int, reserve_out as int, net as int);
    }
    mul_div_floor(reserve_out, net, denominator)
}

/// The floored constant-product output is below the reserve.
proof fn lemma_out_below_reserve(reserve_in: int, reserve_out: int, net: int)
    requires
        reserve_in > 0,
        reserve_out >= 0,
        net >= 0,
    ensures
        (reserve_out * net) / (reserve_in + net) <= reserve_out,
{
    lemma_mul_le(reserve_out, net, reserve_out, reserve_in + net);
    lemma_div_le(reserve_out * net, reserve_out * (reserve_in + net), reserve_in + net);
    crate::arith::lemma_div_unique(reserve_out * (reserve_in + net), reserve_in + net, reserve_out, 0);
}

/// Returns the least gross input whose exact-input replay reaches `amount_out`.
pub fn quote_exact_out(reserve_in: u64, reserve_out: u64, amount_out: u64, fee_bps: u16) -> (r: Result<u64, MathError>)
    ensures
        r == quote_exact_out_result(reserve_in, reserve_out, amount_out, fee_bps),
{
    let fee = fee_bps as u64;
    if fee > BPS_SCALE || reserve_in == 0 || reserve_out == 0 {
        return Err(MathError::OutOfDomain);
    }
    if amount_out == 0 {
        return Ok(0);
    }
    if amount_out >= reserve_out || fee == BPS_SCALE {
        return Err(MathError::OutOfDomain);
    }
    let remaining_out = reserve_out - amount_out;
    let required_net = match mul_div_ceil(reserve_in, amount_out, remaining_out) {
        Ok(required) => required,
        Err(error) => return Err(error),
    };
    let gross = match mul_div_ceil(required_net, BPS_SCALE, BPS_SCALE - fee) {
        Ok(gross) => gross,
        Err(error) => {
            proof {
                lemma_ceil_div_nonneg(reserve_in * amount_out, remaining_out as int);
            }
            return Err(error);
        },
    };
    // Replayability guard: the forward quote divides by reserve_in plus the
    // exact net of this gross input, so that sum must fit u64 for the
    // exact-in replay that defines this quote's minimality to exist.
    let (actual_net, _) = match net_of_fee(gross, fee_bps) {
        Ok(pair) => pair,
        Err(error) => return Err(error),
    };
    match reserve_in.checked_add(actual_net) {
        Some(_) => {},
        None => return Err(MathError::Overflow),
    }
    Ok(gross)
}

/// A ceiling of a nonnegative ratio is nonnegative.
proof fn lemma_ceil_div_nonneg(x: int, d: int)
    requires
        x >= 0,
        d > 0,
    ensures
        ceil_div(x, d) >= 0,
{
    lemma_div_mod(x, d);
}

/// Returns `floor(sqrt(deposit_a * deposit_b))`: bootstrap shares that
/// never over-mint.
pub fn initial_lp_shares_floor(deposit_a: u64, deposit_b: u64) -> (r: u64)
    ensures
        is_isqrt(deposit_a * deposit_b, r as int),
{
    proof {
        lemma_mul_le(deposit_a as int, deposit_b as int, u64::MAX as int, u64::MAX as int);
    }
    let root = isqrt((deposit_a as u128) * (deposit_b as u128));
    proof {
        if root > u64::MAX {
            lemma_mul_le(u64::MAX as int + 1, u64::MAX as int + 1, root as int, root as int);
        }
    }
    root as u64
}

} // verus!

verus! {

/// The net after the upward-rounded fee is the floor of the gross times the
/// kept fraction.
proof fn lemma_net_is_floor(g: u64, fee_bps: u16)
    requires
        fee_bps <= BPS_SCALE,
    ensures
        net_spec(g, fee_bps) == (g * (BPS_SCALE - fee_bps)) / (BPS_SCALE as int),
        0 <= net_spec(g, fee_bps) <= g,
{
    let b = BPS_SCALE as int;
    let x = g * fee_bps;
    lemma_fee_bounded(g, fee_bps);
    lemma_div_mod(x, b);
    let q = x / b;
    let m = x % b;
    assert(g * (b - fee_bps) == g * b - x) by (nonlinear_arith)
        requires
            x == g * fee_bps,
    ;
    if m == 0 {
        crate::arith::lemma_div_unique(g * b - x, b, g - q, 0);
    } else {
        crate::arith::lemma_div_unique(g * b - x, b, g - q - 1, b - m);
    }
}

/// A floored constant-product output reaches `a` exactly when the net input
/// covers `a` against the remaining reserve.
proof fn lemma_output_reaches(reserve_in: int, reserve_out: int, n: int, a: int)
    requires
        reserve_in > 0,
        n >= 0,
        reserve_out >= 0,
    ensures
        (reserve_out * n) / (reserve_in + n) >= a <==> n * (reserve_out - a) >= reserve_in * a,
{
    lemma_mul_le(reserve_out, n, reserve_out, n);
    lemma_div_lt_iff(reserve_out * n, reserve_in + n, a);
    assert(reserve_out * n >= a * (reserve_in + n) <==> n * (reserve_out - a) >= reserve_in * a) by (nonlinear_arith);
}

/// The exact-output quote is the least gross input whose exact-input replay
/// reaches `amount_out`: replaying it buys at least `amount_out`, and
/// replaying any smaller input succeeds but buys less.
pub proof fn law_quote_exact_out_is_least_replay(
    reserve_in: u64,
    reserve_out: u64,
    amount_out: u64,
    fee_bps: u16,
    gross: u64,
    smaller: u64,
)
    requires
        quote_exact_out_result(reserve_in, reserve_out, amount_out, fee_bps) == Ok::<u64, MathError>(gross),
    ensures
        quote_exact_in_result(reserve_in, reserve_out, gross, fee_bps) matches Ok(out) && out >= amount_out,
        smaller < gross ==> (quote_exact_in_result(reserve_in, reserve_out, smaller, fee_bps) matches Ok(out)
            && out < amount_out),
{
    let b = BPS_SCALE as int;
    lemma_net_is_floor(gross, fee_bps);
    lemma_net_is_floor(smaller, fee_bps);
    if amount_out == 0 {
        assert(gross == 0);
        assert(net_spec(gross, fee_bps) == 0);
        lemma_div_mod(0, reserve_in as int);
        return;
    }
    let a = amount_out as int;
    let rem = reserve_out - amount_out;
    let x = reserve_in * a;
    lemma_mul_le(reserve_in as int, a, reserve_in as int, a);
    let required = ceil_div(x, rem);
    lemma_ceil_div_nonneg(x, rem);
    lemma_mul_le(required, b, required, b);
    let kept = b - fee_bps;
    // net(g) >= required exactly when g >= gross.
    let ng = net_spec(gross, fee_bps);
    let ns = net_spec(smaller, fee_bps);
    assert(ng >= required) by {
        crate::arith::lemma_ceil_le_iff(required * b, kept, gross as int);
        lemma_mul_le(gross as int, kept, gross as int, kept);
        lemma_div_lt_iff(gross * kept, b, required);
        assert(gross * kept == kept * gross) by (nonlinear_arith);
    }
    // The replay of gross reaches amount_out.
    crate::arith::lemma_ceil_le_iff(x, rem, ng);
    lemma_output_reaches(reserve_in as int, reserve_out as int, ng, a);
    assert(ng * rem == ng * (reserve_out - a));
    lemma_out_below_reserve(reserve_in as int, reserve_out as int, ng);
    lemma_out_below_reserve(reserve_in as int, reserve_out as int, ns);
    if smaller < gross {
        assert(ns < required) by {
            crate::arith::lemma_ceil_le_iff(required * b, kept, smaller as int);
            lemma_mul_le(smaller as int, kept, smaller as int, kept);
            lemma_div_lt_iff(smaller * kept, b, required);
            assert(smaller * kept == kept * smaller) by (nonlinear_arith);
        }
        lemma_mul_le(smaller as int, kept, gross as int, kept);
        lemma_div_le(smaller * kept, gross * kept, b);
        crate::arith::lemma_ceil_le_iff(x, rem, ns);
        lemma_output_reaches(reserve_in as int, reserve_out as int, ns, a);
        assert(ns * rem == ns * (reserve_out - a));
    }
}

/// An exact-input swap never shrinks the constant product: with `net` the
/// input left after the fee, `(reserve_in + net) * (reserve_out - out) >=
/// reserve_in * reserve_out`; and the floored output is the largest that
/// does so, since one more unit would exceed the exact share
/// `reserve_out * net / (reserve_in + net)`.
pub proof fn law_quote_exact_in_preserves_constant_product(
    reserve_in: u64,
    reserve_out: u64,
    amount_in: u64,
    fee_bps: u16,
    out: u64,
)
    requires
        quote_exact_in_result(reserve_in, reserve_out, amount_in, fee_bps) == Ok::<u64, MathError>(out),
    ensures
        out <= reserve_out,
        (reserve_in + net_spec(amount_in, fee_bps)) * (reserve_out - out) >= reserve_in * reserve_out,
        (out + 1) * (reserve_in + net_spec(amount_in, fee_bps)) > reserve_out * net_spec(amount_in, fee_bps),
{
    lemma_net_is_floor(amount_in, fee_bps);
    let n = net_spec(amount_in, fee_bps);
    let d = reserve_in + n;
    lemma_out_below_reserve(reserve_in as int, reserve_out as int, n);
    lemma_mul_le(0, 0, reserve_out as int, n);
    lemma_div_mod(reserve_out * n, d);
    let q = (reserve_out * n) / d;
    assert(q == out);
    assert(d * (reserve_out - q) >= reserve_in * reserve_out) by (nonlinear_arith)
        requires
            reserve_out * n == q * d + (reserve_out * n) % d,
            (reserve_out * n) % d >= 0,
            d == reserve_in + n,
    ;
    assert((q + 1) * d > reserve_out * n) by (nonlinear_arith)
        requires
            reserve_out * n == q * d + (reserve_out * n) % d,
            (reserve_out * n) % d < d,
    ;
}

} // verus!
