//! Arithmetic in basis points: a portion of an amount is `amount * bps / 10000`,
//! rounded down, and fails rather than wraps when the product does not fit.

use vstd::prelude::*;
use crate::error::CasinoError;

verus! {

/// 100% in basis points.
pub const BPS_DENOMINATOR: u64 = 10000;

/// The portion `bps` basis points of `amount`, rounded down.
pub open spec fn portion(amount: int, bps: int) -> int {
    amount * bps / 10000
}

/// Computes [`portion`], or fails with `MathOverflow` when `amount * bps` exceeds 64 bits.
pub fn checked_portion(amount: u64, bps: u64) -> (r: Result<u64, CasinoError>)
    ensures
        match r {
            Ok(part) => amount * bps <= u64::MAX && part == portion(amount as int, bps as int),
            Err(e) => amount * bps > u64::MAX && e == CasinoError::MathOverflow,
        },
{
    match amount.checked_mul(bps) {
        Some(product) => Ok(product / BPS_DENOMINATOR),
        None => Err(CasinoError::MathOverflow),
    }
}

/// A portion of at most 100% never exceeds the amount it is taken from.
pub proof fn lemma_portion_within_amount(amount: int, bps: int)
    requires
        0 <= amount,
        0 <= bps <= 10000,
    ensures
        0 <= portion(amount, bps) <= amount,
{
    assert(0 <= amount * bps <= amount * 10000) by (nonlinear_arith)
        requires
            0 <= amount,
            0 <= bps <= 10000,
    ;
}

/// Three portions whose rates sum to at most 100% never add up to more than
/// the amount: rounding down cannot over-allocate.
pub proof fn lemma_portions_within_amount(amount: int, first: int, second: int, third: int)
    requires
        0 <= amount,
        0 <= first,
        0 <= second,
        0 <= third,
        first + second + third <= 10000,
    ensures
        0 <= portion(amount, first) + portion(amount, second) + portion(amount, third) <= amount,
{
    assert(amount * first + amount * second + amount * third == amount * (first + second + third))
        by (nonlinear_arith);
    assert(amount * (first + second + third) <= amount * 10000) by (nonlinear_arith)
        requires
            0 <= amount,
            first + second + third <= 10000,
    ;
    assert(0 <= amount * first && 0 <= amount * second && 0 <= amount * third)
        by (nonlinear_arith)
        requires
            0 <= amount,
            0 <= first,
            0 <= second,
            0 <= third,
    ;
}

} // verus!
