//! Time-based schedule calculations.
use crate::arith::{ceil_div, lemma_div_le, lemma_div_mod, lemma_div_unique, lemma_mul_le};
use crate::error::MathError;
use crate::kernel::wide::{mul_div_ceil, mul_div_floor};
use vstd::prelude::*;

verus! {

/// The floor of value vested under a cliffed linear schedule.
pub open spec fn vested_result(total: u64, start: u64, cliff: u64, duration: u64, now: u64) -> Result<u64, MathError> {
    if duration == 0 {
        Err(MathError::OutOfDomain)
    } else if now < start || now < cliff {
        Ok(0)
    } else if now - start >= duration {
        Ok(total)
    } else {
        Ok(((total * (now - start)) / (duration as int)) as u64)
    }
}

/// Returns the floor of vested value under a cliffed linear schedule.
///
/// Nothing is released before the start or the cliff, everything after the
/// end, and never more than the total.
pub fn vested_floor(total: u64, start: u64, cliff: u64, duration: u64, now: u64) -> (r: Result<u64, MathError>)
    ensures
        r == vested_result(total, start, cliff, duration, now),
        r matches Ok(vested) ==> vested <= total,
{
    if duration == 0 {
        return Err(MathError::OutOfDomain);
    }
    if now < start || now < cliff {
        return Ok(0);
    }
    let elapsed = now - start;
    if elapsed >= duration {
        return Ok(total);
    }
    proof {
        lemma_mul_le(total as int, elapsed as int, total as int, duration as int);
        lemma_div_le(total * elapsed, total * duration, duration as int);
        lemma_div_unique(total * duration, duration as int, total as int, 0);
    }
    mul_div_floor(total, elapsed, duration)
}

/// The exact line `from + (to - from) * elapsed / duration`, times `duration`.
pub open spec fn line_numerator(from: u64, to: u64, elapsed: u64, duration: u64) -> int {
    from * duration + (to - from) * elapsed
}

/// The outcome of a clamped interpolation rounded down.
pub open spec fn interp_floor_result(from: u64, to: u64, elapsed: u64, duration: u64) -> Result<u64, MathError> {
    if duration == 0 {
        Err(MathError::DivByZero)
    } else if elapsed >= duration {
        Ok(to)
    } else {
        Ok((line_numerator(from, to, elapsed, duration) / (duration as int)) as u64)
    }
}

/// The outcome of a clamped interpolation rounded up.
pub open spec fn interp_ceil_result(from: u64, to: u64, elapsed: u64, duration: u64) -> Result<u64, MathError> {
    if duration == 0 {
        Err(MathError::DivByZero)
    } else if elapsed >= duration {
        Ok(to)
    } else {
        Ok(ceil_div(line_numerator(from, to, elapsed, duration), duration as int) as u64)
    }
}

/// Moving a multiple of the divisor through a floor or ceiling.
proof fn lemma_shift_by_multiple(base: int, step: int, d: int)
    requires
        d > 0,
    ensures
        (base * d + step) / d == base + step / d,
        ceil_div(base * d + step, d) == base + ceil_div(step, d),
        ceil_div(base * d - step, d) == base - step / d,
        (base * d - step) / d == base - ceil_div(step, d),
{
    lemma_div_mod(step, d);
    let q = step / d;
    let m = step % d;
    assert(base * d + step == (base + q) * d + m && base * d - step == (base - q) * d - m
        && base * d - step == (base - q - 1) * d + (d - m)) by (nonlinear_arith)
        requires
            step == q * d + m,
    ;
    lemma_div_unique(base * d + step, d, base + q, m);
    if m == 0 {
        lemma_div_unique(base * d - step, d, base - q, 0);
    } else {
        lemma_div_unique(base * d - step, d, base - q - 1, d - m);
    }
    crate::arith::lemma_div_mod(base * d + step, d);
}

/// Returns the floor of a clamped linear interpolation.
///
/// The result stays on the segment between `from` and `to`.
pub fn linear_interp_floor(from: u64, to: u64, elapsed: u64, duration: u64) -> (r: Result<u64, MathError>)
    ensures
        r == interp_floor_result(from, to, elapsed, duration),
        r matches Ok(v) ==> (from <= v <= to || to <= v <= from),
{
    if duration == 0 {
        return Err(MathError::DivByZero);
    }
    if elapsed >= duration {
        return Ok(to);
    }
    let ghost d = duration as int;
    if from <= to {
        proof {
            lemma_step_bounded((to - from) as int, elapsed as int, d);
            lemma_shift_by_multiple(from as int, (to - from) * elapsed, d);
        }
        let step = match mul_div_floor(to - from, elapsed, duration) {
            Ok(step) => step,
            Err(error) => return Err(error),
        };
        match from.checked_add(step) {
            Some(v) => Ok(v),
            None => Err(MathError::Overflow),
        }
    } else {
        proof {
            lemma_step_bounded((from - to) as int, elapsed as int, d);
            lemma_shift_by_multiple(from as int, (from - to) * elapsed, d);
            let ln = line_numerator(from, to, elapsed, duration);
            assert(ln == from * d - (from - to) * elapsed) by (nonlinear_arith)
                requires
                    ln == from * d + (to - from) * elapsed,
            ;
        }
        let step = match mul_div_ceil(from - to, elapsed, duration) {
            Ok(step) => step,
            Err(error) => return Err(error),
        };
        match from.checked_sub(step) {
            Some(v) => Ok(v),
            None => Err(MathError::Overflow),
        }
    }
}

/// A step over part of the duration stays within the span.
proof fn lemma_step_bounded(span: int, elapsed: int, d: int)
    requires
        span >= 0,
        0 <= elapsed < d,
    ensures
        0 <= (span * elapsed) / d <= span,
        0 <= ceil_div(span * elapsed, d) <= span,
{
    lemma_mul_le(span, elapsed, span, d);
    lemma_div_le(span * elapsed, span * d, d);
    lemma_div_unique(span * d, d, span, 0);
    lemma_div_mod(span * elapsed, d);
    if (span * elapsed) % d != 0 && (span * elapsed) / d == span {
        assert(span * elapsed > span * d);
    }
}

/// Returns the ceil of a clamped linear interpolation.
///
/// The result stays on the segment between `from` and `to`.
pub fn linear_interp_ceil(from: u64, to: u64, elapsed: u64, duration: u64) -> (r: Result<u64, MathError>)
    ensures
        r == interp_ceil_result(from, to, elapsed, duration),
        r matches Ok(v) ==> (from <= v <= to || to <= v <= from),
{
    if duration == 0 {
        return Err(MathError::DivByZero);
    }
    if elapsed >= duration {
        return Ok(to);
    }
    let ghost d = duration as int;
    if from <= to {
        proof {
            lemma_step_bounded((to - from) as int, elapsed as int, d);
            lemma_shift_by_multiple(from as int, (to - from) * elapsed, d);
        }
        let step = match mul_div_ceil(to - from, elapsed, duration) {
            Ok(step) => step,
            Err(error) => return Err(error),
        };
        match from.checked_add(step) {
            Some(v) => Ok(v),
            None => Err(MathError::Overflow),
        }
    } else {
        proof {
            lemma_step_bounded((from - to) as int, elapsed as int, d);
            lemma_shift_by_multiple(from as int, (from - to) * elapsed, d);
            let ln = line_numerator(from, to, elapsed, duration);
            assert(ln == from * d - (from - to) * elapsed) by (nonlinear_arith)
                requires
                    ln == from * d + (to - from) * elapsed,
            ;
            lemma_floor_of_negated(from as int, (from - to) * elapsed, d);
        }
        let step = match mul_div_floor(from - to, elapsed, duration) {
            Ok(step) => step,
            Err(error) => return Err(error),
        };
        match from.checked_sub(step) {
            Some(v) => Ok(v),
            None => Err(MathError::Overflow),
        }
    }
}

/// `ceil((base * d - step) / d) == base - floor(step / d)`.
proof fn lemma_floor_of_negated(base: int, step: int, d: int)
    requires
        d > 0,
    ensures
        ceil_div(base * d - step, d) == base - step / d,
{
    lemma_shift_by_multiple(base, step, d);
}

} // verus!
