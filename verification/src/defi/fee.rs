//! Fee calculations.
use crate::arith::ceil_div;
use crate::error::MathError;
use crate::kernel::wide::mul_div_ceil;
use vstd::prelude::*;

verus! {

/// Basis points in one whole.
pub const BPS_SCALE: u64 = 10_000;

/// The upward-rounded basis-point fee on `amount`: `ceil(amount * bps / 10^4)`.
pub open spec fn fee_spec(amount: u64, fee_bps: u16) -> int {
    ceil_div(amount * fee_bps, BPS_SCALE as int)
}

/// The outcome of splitting `amount` at `fee_bps`.
pub open spec fn net_of_fee_result(amount: u64, fee_bps: u16) -> Result<(u64, u64), MathError> {
    if fee_bps > BPS_SCALE {
        Err(MathError::OutOfDomain)
    } else {
        Ok(((amount - fee_spec(amount, fee_bps)) as u64, fee_spec(amount, fee_bps) as u64))
    }
}

/// A fee of at most 100% never exceeds the amount.
pub proof fn lemma_fee_bounded(amount: u64, fee_bps: u16)
    requires
        fee_bps <= BPS_SCALE,
    ensures
        0 <= fee_spec(amount, fee_bps) <= amount,
        fee_spec(amount, fee_bps) * BPS_SCALE >= amount * fee_bps,
        fee_spec(amount, fee_bps) > 0 ==> (fee_spec(amount, fee_bps) - 1) * BPS_SCALE < amount * fee_bps,
{
    let x = amount * fee_bps;
    crate::arith::lemma_div_mod(x, BPS_SCALE as int);
    crate::arith::lemma_mul_le(amount as int, fee_bps as int, amount as int, BPS_SCALE as int);
    crate::arith::lemma_div_le(x, amount * BPS_SCALE, BPS_SCALE as int);
    crate::arith::lemma_div_unique(amount * BPS_SCALE, BPS_SCALE as int, amount as int, 0);
    if x % (BPS_SCALE as int) != 0 && x / (BPS_SCALE as int) == amount {
        assert(false);
    }
}

/// The upward-rounded basis-point fee; a rate above 100% is `OutOfDomain`.
pub fn fee_ceil(amount: u64, fee_bps: u16) -> (r: Result<u64, MathError>)
    ensures
        fee_bps > BPS_SCALE ==> r == Err::<u64, MathError>(MathError::OutOfDomain),
        fee_bps <= BPS_SCALE ==> r == Ok::<u64, MathError>(fee_spec(amount, fee_bps) as u64),
{
    let fee_bps = fee_bps as u64;
    if fee_bps > BPS_SCALE {
        return Err(MathError::OutOfDomain);
    }
    proof {
        lemma_fee_bounded(amount, fee_bps as u16);
    }
    mul_div_ceil(amount, fee_bps, BPS_SCALE)
}

/// Splits `amount` into `(net, fee)` using an upward-rounded basis-point fee.
///
/// The returned values always sum exactly to `amount`, and the fee is the
/// least whole fee covering the rate.
pub fn net_of_fee(amount: u64, fee_bps: u16) -> (r: Result<(u64, u64), MathError>)
    ensures
        r == net_of_fee_result(amount, fee_bps),
        r matches Ok((net, fee)) ==> net + fee == amount && fee * BPS_SCALE >= amount * fee_bps
            && (fee > 0 ==> (fee - 1) * BPS_SCALE < amount * fee_bps),
{
    let fee = match fee_ceil(amount, fee_bps) {
        Ok(fee) => fee,
        Err(error) => return Err(error),
    };
    proof {
        lemma_fee_bounded(amount, fee_bps);
    }
    Ok((amount - fee, fee))
}

} // verus!
