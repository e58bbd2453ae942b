//! Certified bounds for `(base / scale)^exponent`: directed binary
//! exponentiation for integer exponents, `exp2(exponent * log2(base))`
//! otherwise.
use crate::arith::{directed, lemma_directed, pair_results};
use crate::enclosure::{lemma_enclosures_ordered, lemma_pow_trivial_encloses, lemma_pow_whole_encloses, pow_encloses};
use crate::error::MathError;
use crate::kernel::exp2::{exp2_from_q, exp2_q_spec};
use crate::kernel::log2::{log2_q, log2_q_bounds, log2_q_spec};
use crate::kernel::scale::{mul_signed_q, mul_signed_q_spec, scaled_unsigned_to_q, scaled_unsigned_to_q_bounds, Q};
use crate::kernel::wide::{mul_div_ceil_result, mul_div_floor_result, FixedDivisor};
use vstd::prelude::*;

verus! {

/// `a * b / d` rounded up when `up`, down otherwise, with its errors.
pub open spec fn mul_div_directed(a: u64, b: u64, d: u64, up: bool) -> Result<u64, MathError> {
    if up {
        mul_div_ceil_result(a, b, d)
    } else {
        mul_div_floor_result(a, b, d)
    }
}

/// Directed binary exponentiation from the running `result` and `factor`:
/// each set bit of `exponent` multiplies the result by the factor, each
/// further bit squares the factor, every product divided by `scale` with
/// the rounding of `up`; the first failing step's error ends it.
pub open spec fn powi_steps(result: u64, factor: u64, exponent: nat, scale: u64, up: bool) -> Result<u64, MathError>
    decreases exponent,
{
    if exponent == 0 {
        Ok(result)
    } else {
        let stepped = if exponent % 2 == 1 { mul_div_directed(result, factor, scale, up) } else { Ok(result) };
        match stepped {
            Err(error) => Err(error),
            Ok(next) => if exponent / 2 == 0 {
                Ok(next)
            } else {
                match mul_div_directed(factor, factor, scale, up) {
                    Err(error) => Err(error),
                    Ok(squared) => powi_steps(next, squared, exponent / 2, scale, up),
                }
            },
        }
    }
}

/// The bound of `(base / scale)^exponent` that `powi_lower` (`up ==
/// false`) or `powi_upper` (`up == true`) returns.
pub open spec fn powi_spec(base: u64, exponent: u64, scale: u64, up: bool) -> Result<u64, MathError> {
    if scale == 0 {
        Err(MathError::DivByZero)
    } else if exponent == 0 {
        Ok(scale)
    } else {
        powi_steps(scale, base, exponent as nat, scale, up)
    }
}

/// `value / scale` bounds `(base / scale)^exponent` from below (`up ==
/// false`) or above (`up == true`), in integers:
/// `value * scale^exponent` against `scale * base^exponent`.
pub open spec fn encloses(value: int, base: int, exponent: nat, scale: int, up: bool) -> bool {
    if up {
        value * vstd::arithmetic::power::pow(scale, exponent) >= scale * vstd::arithmetic::power::pow(base, exponent)
    } else {
        value * vstd::arithmetic::power::pow(scale, exponent) <= scale * vstd::arithmetic::power::pow(base, exponent)
    }
}

/// One directed product of two enclosing values encloses the sum of their
/// exponents.
pub proof fn lemma_enclosure_step(x: int, y: int, next: int, base: int, scale: int, e: nat, p: nat, up: bool)
    requires
        scale > 0,
        x >= 0,
        y >= 0,
        base >= 0,
        encloses(x, base, e, scale, up),
        encloses(y, base, p, scale, up),
        up ==> next * scale >= x * y,
        !up ==> next * scale <= x * y,
    ensures
        encloses(next, base, e + p, scale, up),
{
    vstd::arithmetic::power::lemma_pow_adds(scale, e, p);
    vstd::arithmetic::power::lemma_pow_adds(base, e, p);
    vstd::arithmetic::power::lemma_pow_positive(scale, e);
    vstd::arithmetic::power::lemma_pow_positive(scale, p);
    vstd::arithmetic::power::lemma_pow_positive(scale, e + p);
    if base > 0 {
        vstd::arithmetic::power::lemma_pow_positive(base, e);
        vstd::arithmetic::power::lemma_pow_positive(base, p);
    } else {
        vstd::arithmetic::power::lemma_pow0(0);
        if e > 0 {
            vstd::arithmetic::power::lemma0_pow(e);
        }
        if p > 0 {
            vstd::arithmetic::power::lemma0_pow(p);
        }
    }
    let se = vstd::arithmetic::power::pow(scale, e);
    let sp = vstd::arithmetic::power::pow(scale, p);
    let be = vstd::arithmetic::power::pow(base, e);
    let bp = vstd::arithmetic::power::pow(base, p);
    let a = x * se;
    let b = y * sp;
    assert(x * y * (se * sp) == a * b) by (nonlinear_arith)
        requires
            a == x * se,
            b == y * sp,
    ;
    assert((scale * be) * (scale * bp) == scale * (scale * (be * bp))) by (nonlinear_arith);
    if up {
        assert(a * b >= (scale * be) * (scale * bp)) by (nonlinear_arith)
            requires
                a >= scale * be,
                b >= scale * bp,
                scale * be >= 0,
                scale * bp >= 0,
        ;
        assert(next * scale * (se * sp) >= x * y * (se * sp)) by (nonlinear_arith)
            requires
                next * scale >= x * y,
                se * sp > 0,
        ;
        assert(next * (se * sp) >= scale * (be * bp)) by (nonlinear_arith)
            requires
                next * scale * (se * sp) >= scale * (scale * (be * bp)),
                scale > 0,
        ;
    } else {
        assert(a * b <= (scale * be) * (scale * bp)) by (nonlinear_arith)
            requires
                0 <= a <= scale * be,
                0 <= b <= scale * bp,
        ;
        assert(x * se >= 0 && y * sp >= 0) by (nonlinear_arith)
            requires
                x >= 0,
                y >= 0,
                se > 0,
                sp > 0,
        ;
        assert(next * scale * (se * sp) <= x * y * (se * sp)) by (nonlinear_arith)
            requires
                next * scale <= x * y,
                se * sp > 0,
        ;
        assert(next * (se * sp) <= scale * (be * bp)) by (nonlinear_arith)
            requires
                next * scale * (se * sp) <= scale * (scale * (be * bp)),
                scale > 0,
        ;
    }
}

/// One directed division step of the exponentiation.
fn directed_step<const UPPER: bool>(divisor: &FixedDivisor, a: u64, b: u64) -> (r: Result<u64, MathError>)
    requires
        divisor.wf(),
    ensures
        r == mul_div_directed(a, b, divisor.divisor(), UPPER),
        r matches Ok(value) ==> (UPPER ==> value * divisor.divisor() >= a * b) && (!UPPER ==> value * divisor.divisor() <= a * b),
{
    proof {
        divisor.lemma_divisor_nonzero();
        lemma_directed(a * b, divisor.divisor() as int);
    }
    if UPPER {
        divisor.mul_div_ceil(a, b)
    } else {
        divisor.mul_div_floor(a, b)
    }
}

/// `(base / scale)^exponent` by directed binary squaring with one prepared
/// divisor, as `powi_spec` states it; a result encloses the exact power.
fn powi<const UPPER: bool>(base: u64, exponent: u64, scale: u64) -> (r: Result<u64, MathError>)
    ensures
        r == powi_spec(base, exponent, scale, UPPER),
        r matches Ok(value) ==> encloses(value as int, base as int, exponent as nat, scale as int, UPPER),
{
    if scale == 0 {
        return Err(MathError::DivByZero);
    }
    if exponent == 0 {
        proof {
            vstd::arithmetic::power::lemma_pow0(scale as int);
            vstd::arithmetic::power::lemma_pow0(base as int);
        }
        return Ok(scale);
    }
    let divisor = match FixedDivisor::new(scale) {
        Ok(divisor) => divisor,
        Err(error) => return Err(error),
    };
    let mut result = scale;
    let mut factor = base;
    let mut remaining = exponent;
    let ghost mut done: nat = 0;
    let ghost mut span: nat = 1;
    proof {
        vstd::arithmetic::power::lemma_pow0(scale as int);
        vstd::arithmetic::power::lemma_pow0(base as int);
        vstd::arithmetic::power::lemma_pow1(scale as int);
        vstd::arithmetic::power::lemma_pow1(base as int);
        assert(base * scale == scale * base) by (nonlinear_arith);
    }
    while remaining != 0
        invariant
            divisor.wf(),
            divisor.divisor() == scale,
            scale > 0,
            powi_steps(result, factor, remaining as nat, scale, UPPER) == powi_steps(scale, base, exponent as nat, scale, UPPER),
            done + span * remaining == exponent,
            encloses(result as int, base as int, done, scale as int, UPPER),
            encloses(factor as int, base as int, span, scale as int, UPPER),
        decreases remaining,
    {
        let ghost before = remaining;
        if remaining % 2 != 0 {
            result = match directed_step::<UPPER>(&divisor, result, factor) {
                Ok(next) => {
                    proof {
                        lemma_enclosure_step(result as int, factor as int, next as int, base as int, scale as int, done, span, UPPER);
                    }
                    next
                },
                Err(error) => return Err(error),
            };
            proof {
                done = done + span;
            }
        }
        remaining = remaining / 2;
        proof {
            assert(before == 2 * remaining + before % 2);
            assert(span * before == 2 * span * remaining + span * (before % 2)) by (nonlinear_arith)
                requires
                    before == 2 * remaining + before % 2,
            ;
        }
        if remaining != 0 {
            factor = match directed_step::<UPPER>(&divisor, factor, factor) {
                Ok(squared) => {
                    proof {
                        lemma_enclosure_step(factor as int, factor as int, squared as int, base as int, scale as int, span, span, UPPER);
                    }
                    squared
                },
                Err(error) => return Err(error),
            };
            proof {
                span = span + span;
            }
        }
    }
    Ok(result)
}

/// A lower bound of `(base / scale)^exponent` for an integer exponent.
pub fn powi_lower(base: u64, exponent: u64, scale: u64) -> (r: Result<u64, MathError>)
    ensures
        r == powi_spec(base, exponent, scale, false),
        r matches Ok(value) ==> encloses(value as int, base as int, exponent as nat, scale as int, false),
{
    powi::<false>(base, exponent, scale)
}

/// An upper bound of `(base / scale)^exponent` for an integer exponent.
pub fn powi_upper(base: u64, exponent: u64, scale: u64) -> (r: Result<u64, MathError>)
    ensures
        r == powi_spec(base, exponent, scale, true),
        r matches Ok(value) ==> encloses(value as int, base as int, exponent as nat, scale as int, true),
{
    powi::<true>(base, exponent, scale)
}

/// The bound of `(base / scale)^(exponent / scale)` that `pow_lower` (`up
/// == false`) or `pow_upper` (`up == true`) returns: an exponent of zero
/// is exactly one, a zero base is zero, an integer exponent takes `powi`,
/// and any other goes through `exp2(exponent * log2(base))` with the
/// exponent rounded toward the side that keeps the product one-sided.
pub open spec fn pow_spec(base: u64, exponent: u64, scale: u64, up: bool) -> Result<u64, MathError> {
    if scale == 0 {
        Err(MathError::DivByZero)
    } else if exponent == 0 {
        Ok(scale)
    } else if base == 0 {
        Ok(0)
    } else if exponent % scale == 0 {
        powi_spec(base, exponent / scale, scale, up)
    } else {
        match log2_q_spec(base as int, scale as int, up) {
            Err(error) => Err(error),
            Ok(logarithm) => {
                let exponent_up = if base >= scale { up } else { !up };
                let exponent_q = directed(exponent * Q, scale as int, exponent_up);
                exp2_q_spec(mul_signed_q_spec(logarithm, exponent_q, up), scale as int, up)
            },
        }
    }
}

/// A whole multiple of `scale` is its quotient times `scale`.
proof fn lemma_whole_exponent(exponent: u64, scale: u64)
    requires
        scale > 0,
        exponent % scale == 0,
    ensures
        ((exponent / scale) as nat) * (scale as int) == exponent as int,
{
    crate::arith::lemma_div_mod(exponent as int, scale as int);
}

/// `(base / scale)^(exponent / scale)` rounded up when `UPPER`, as
/// `pow_spec` states it.
fn pow<const UPPER: bool>(base: u64, exponent: u64, scale: u64) -> (r: Result<u64, MathError>)
    ensures
        r == pow_spec(base, exponent, scale, UPPER),
        scale != 0 && (exponent % scale == 0 || base == 0) ==> (r matches Ok(bound) ==> pow_encloses(
            bound as int,
            base as int,
            exponent as int,
            scale as int,
            UPPER,
        )),
{
    if scale == 0 {
        return Err(MathError::DivByZero);
    }
    if exponent == 0 {
        proof {
            lemma_pow_trivial_encloses(base as int, 0, scale as int, UPPER);
        }
        return Ok(scale);
    }
    if base == 0 {
        proof {
            lemma_pow_trivial_encloses(0, exponent as int, scale as int, UPPER);
        }
        return Ok(0);
    }
    if exponent % scale == 0 {
        let result = powi::<UPPER>(base, exponent / scale, scale);
        proof {
            lemma_whole_exponent(exponent, scale);
            if let Ok(bound) = result {
                lemma_pow_whole_encloses(bound as int, base as int, (exponent / scale) as nat, scale as int, UPPER);
            }
        }
        return result;
    }
    let logarithm = match log2_q::<UPPER>(base, scale) {
        Ok(logarithm) => logarithm,
        Err(error) => return Err(error),
    };
    let exponent_q = if base >= scale {
        if UPPER {
            scaled_unsigned_to_q::<true>(exponent, scale)
        } else {
            scaled_unsigned_to_q::<false>(exponent, scale)
        }
    } else if UPPER {
        scaled_unsigned_to_q::<false>(exponent, scale)
    } else {
        scaled_unsigned_to_q::<true>(exponent, scale)
    };
    let exponent_q = match exponent_q {
        Ok(value) => value,
        Err(error) => return Err(error),
    };
    let product = mul_signed_q::<UPPER>(logarithm, exponent_q);
    exp2_from_q::<UPPER>(product, scale)
}

/// A lower bound of `(base / scale)^(exponent / scale)`.
pub fn pow_lower(base: u64, exponent: u64, scale: u64) -> (r: Result<u64, MathError>)
    ensures
        r == pow_spec(base, exponent, scale, false),
        scale != 0 && (exponent % scale == 0 || base == 0) ==> (r matches Ok(bound) ==> pow_encloses(
            bound as int,
            base as int,
            exponent as int,
            scale as int,
            false,
        )),
{
    pow::<false>(base, exponent, scale)
}

/// An upper bound of `(base / scale)^(exponent / scale)`.
pub fn pow_upper(base: u64, exponent: u64, scale: u64) -> (r: Result<u64, MathError>)
    ensures
        r == pow_spec(base, exponent, scale, true),
        scale != 0 && (exponent % scale == 0 || base == 0) ==> (r matches Ok(bound) ==> pow_encloses(
            bound as int,
            base as int,
            exponent as int,
            scale as int,
            true,
        )),
{
    pow::<true>(base, exponent, scale)
}

/// Both directed powers in one pass, sharing the logarithm's normalization
/// and the exponent conversion: exactly `(pow_lower, pow_upper)` when both
/// succeed, and the first error otherwise.
pub fn pow_bounds(base: u64, exponent: u64, scale: u64) -> (r: Result<(u64, u64), MathError>)
    ensures
        r == pair_results(pow_spec(base, exponent, scale, false), pow_spec(base, exponent, scale, true)),
        scale != 0 && (exponent % scale == 0 || base == 0) ==> (r matches Ok((lower, upper)) ==> pow_encloses(
            lower as int,
            base as int,
            exponent as int,
            scale as int,
            false,
        ) && pow_encloses(upper as int, base as int, exponent as int, scale as int, true) && lower <= upper),
{
    if scale == 0 {
        return Err(MathError::DivByZero);
    }
    if exponent == 0 {
        proof {
            lemma_pow_trivial_encloses(base as int, 0, scale as int, false);
            lemma_pow_trivial_encloses(base as int, 0, scale as int, true);
        }
        return Ok((scale, scale));
    }
    if base == 0 {
        proof {
            lemma_pow_trivial_encloses(0, exponent as int, scale as int, false);
            lemma_pow_trivial_encloses(0, exponent as int, scale as int, true);
        }
        return Ok((0, 0));
    }
    if exponent % scale == 0 {
        let whole = exponent / scale;
        let lower = match powi::<false>(base, whole, scale) {
            Ok(value) => value,
            Err(error) => return Err(error),
        };
        let upper = match powi::<true>(base, whole, scale) {
            Ok(value) => value,
            Err(error) => return Err(error),
        };
        proof {
            lemma_whole_exponent(exponent, scale);
            lemma_pow_whole_encloses(lower as int, base as int, whole as nat, scale as int, false);
            lemma_pow_whole_encloses(upper as int, base as int, whole as nat, scale as int, true);
            lemma_enclosures_ordered(lower as int, upper as int, base as int, whole as nat, scale as int);
        }
        return Ok((lower, upper));
    }
    let (log_lower, log_upper) = match log2_q_bounds(base, scale) {
        Ok(pair) => pair,
        Err(error) => return Err(error),
    };
    let (exponent_lower, exponent_upper) = match scaled_unsigned_to_q_bounds(exponent, scale) {
        Ok(pair) => pair,
        Err(error) => return Err(error),
    };
    let (chosen_lower, chosen_upper) = if base >= scale {
        (exponent_lower, exponent_upper)
    } else {
        (exponent_upper, exponent_lower)
    };
    let lower = match exp2_from_q::<false>(mul_signed_q::<false>(log_lower, chosen_lower), scale) {
        Ok(value) => value,
        Err(error) => return Err(error),
    };
    let upper = match exp2_from_q::<true>(mul_signed_q::<true>(log_upper, chosen_upper), scale) {
        Ok(value) => value,
        Err(error) => return Err(error),
    };
    Ok((lower, upper))
}

} // verus!
