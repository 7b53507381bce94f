//! The reward that the yield reserve has accrued over a span of time.

use vstd::prelude::*;
use crate::basis_points::{checked_portion, portion};
use crate::error::CasinoError;

verus! {

/// Seconds in a year of 365 days.
pub const SECONDS_PER_YEAR: u64 = 31536000;

/// The yearly rate at which the reserve earns, in basis points: the reserve's
/// share of the stakes applied to the annual yield, rounded down.
pub open spec fn apy_decimal(defi_percentage: int, apy_bps: int) -> int {
    portion(defi_percentage, apy_bps)
}

/// The reward accrued on `staked_amount` over `elapsed` seconds:
/// `staked_amount * apy_decimal * elapsed / 10000 / 31536000`, each division
/// rounded down.
pub open spec fn reward_of(staked_amount: int, defi_percentage: int, apy_bps: int, elapsed: int) -> int {
    staked_amount * apy_decimal(defi_percentage, apy_bps) * elapsed / 10000 / 31536000
}

/// Whether a product on the way to the reward exceeds 64 bits.
pub open spec fn reward_overflows(
    staked_amount: u64,
    defi_percentage: u16,
    apy_bps: u16,
    elapsed: u64,
) -> bool {
    let rate = apy_decimal(defi_percentage as int, apy_bps as int);
    staked_amount * rate > u64::MAX || staked_amount * rate * elapsed > u64::MAX
}

/// Computes [`reward_of`], or fails with `MathOverflow` where
/// [`reward_overflows`].
pub fn accrued_reward(staked_amount: u64, defi_percentage: u16, apy_bps: u16, elapsed: u64) -> (r:
    Result<u64, CasinoError>)
    ensures
        match r {
            Ok(reward) => {
                &&& !reward_overflows(staked_amount, defi_percentage, apy_bps, elapsed)
                &&& reward == reward_of(
                    staked_amount as int,
                    defi_percentage as int,
                    apy_bps as int,
                    elapsed as int,
                )
            },
            Err(e) => {
                &&& reward_overflows(staked_amount, defi_percentage, apy_bps, elapsed)
                &&& e == CasinoError::MathOverflow
            },
        },
{
    assert(defi_percentage * apy_bps <= u64::MAX) by (nonlinear_arith)
        requires
            defi_percentage <= 65535,
            apy_bps <= 65535,
    ;
    let rate = match checked_portion(defi_percentage as u64, apy_bps as u64) {
        Ok(rate) => rate,
        Err(e) => { return Err(e); },
    };
    let yearly = match staked_amount.checked_mul(rate) {
        Some(yearly) => yearly,
        None => { return Err(CasinoError::MathOverflow); },
    };
    let accrued = match yearly.checked_mul(elapsed) {
        Some(accrued) => accrued,
        None => { return Err(CasinoError::MathOverflow); },
    };
    Ok(accrued / 10000 / SECONDS_PER_YEAR)
}

/// The two divisions of the reward formula amount to one division by
/// 10000 * 31536000, and the reward is never negative.
pub proof fn lemma_reward_is_one_division(staked_amount: int, defi_percentage: int, apy_bps: int, elapsed: int)
    requires
        0 <= staked_amount,
        0 <= defi_percentage,
        0 <= apy_bps,
        0 <= elapsed,
    ensures
        reward_of(staked_amount, defi_percentage, apy_bps, elapsed) == staked_amount * apy_decimal(
            defi_percentage,
            apy_bps,
        ) * elapsed / 315360000000,
        0 <= reward_of(staked_amount, defi_percentage, apy_bps, elapsed),
{
    let rate = apy_decimal(defi_percentage, apy_bps);
    assert(0 <= defi_percentage * apy_bps) by (nonlinear_arith)
        requires
            0 <= defi_percentage,
            0 <= apy_bps,
    ;
    assert(0 <= staked_amount * rate * elapsed) by (nonlinear_arith)
        requires
            0 <= rate,
            0 <= staked_amount,
            0 <= elapsed,
    ;
    vstd::arithmetic::div_mod::lemma_div_denominator(
        staked_amount * rate * elapsed,
        10000,
        31536000,
    );
}

/// The reward never shrinks as time passes.
pub proof fn lemma_reward_monotone_in_elapsed(
    staked_amount: int,
    defi_percentage: int,
    apy_bps: int,
    earlier: int,
    later: int,
)
    requires
        0 <= staked_amount,
        0 <= defi_percentage,
        0 <= apy_bps,
        0 <= earlier <= later,
    ensures
        reward_of(staked_amount, defi_percentage, apy_bps, earlier) <= reward_of(
            staked_amount,
            defi_percentage,
            apy_bps,
            later,
        ),
{
    let rate = apy_decimal(defi_percentage, apy_bps);
    assert(0 <= defi_percentage * apy_bps) by (nonlinear_arith)
        requires
            0 <= defi_percentage,
            0 <= apy_bps,
    ;
    assert(staked_amount * rate * earlier <= staked_amount * rate * later) by (nonlinear_arith)
        requires
            0 <= rate,
            0 <= staked_amount,
            earlier <= later,
    ;
}

/// The reward is linear in the elapsed time up to rounding: over `factor`
/// times the span it is at least `factor` times the reward, and exceeds that
/// by less than `factor`.
pub proof fn lemma_reward_scales_with_elapsed(
    staked_amount: int,
    defi_percentage: int,
    apy_bps: int,
    elapsed: int,
    factor: int,
)
    requires
        0 <= staked_amount,
        0 <= defi_percentage,
        0 <= apy_bps,
        0 <= elapsed,
        1 <= factor,
    ensures
        factor * reward_of(staked_amount, defi_percentage, apy_bps, elapsed) <= reward_of(
            staked_amount,
            defi_percentage,
            apy_bps,
            factor * elapsed,
        ),
        reward_of(staked_amount, defi_percentage, apy_bps, factor * elapsed) <= factor * reward_of(
            staked_amount,
            defi_percentage,
            apy_bps,
            elapsed,
        ) + factor - 1,
{
    let rate = apy_decimal(defi_percentage, apy_bps);
    let base = staked_amount * rate * elapsed;
    let scaled = staked_amount * rate * (factor * elapsed);
    let reward = base / 315360000000;
    let rest = base % 315360000000;
    assert(0 <= factor * elapsed) by (nonlinear_arith)
        requires
            0 <= elapsed,
            1 <= factor,
    ;
    lemma_reward_is_one_division(staked_amount, defi_percentage, apy_bps, elapsed);
    lemma_reward_is_one_division(staked_amount, defi_percentage, apy_bps, factor * elapsed);
    assert(scaled == factor * base) by (nonlinear_arith)
        requires
            base == staked_amount * rate * elapsed,
            scaled == staked_amount * rate * (factor * elapsed),
    ;
    assert(base == 315360000000 * reward + rest);
    assert(scaled == (factor * reward) * 315360000000 + factor * rest) by (nonlinear_arith)
        requires
            scaled == factor * base,
            base == 315360000000 * reward + rest,
    ;
    assert(0 <= factor * rest <= factor * 315360000000 - factor) by (nonlinear_arith)
        requires
            0 <= rest <= 315360000000 - 1,
            factor >= 1,
    ;
    let extra = (factor * rest) / 315360000000;
    assert(0 <= extra <= factor - 1);
    assert(scaled == (factor * reward + extra) * 315360000000 + (factor * rest) % 315360000000)
        by (nonlinear_arith)
        requires
            scaled == (factor * reward) * 315360000000 + factor * rest,
            factor * rest == extra * 315360000000 + (factor * rest) % 315360000000,
    ;
    vstd::arithmetic::div_mod::lemma_fundamental_div_mod_converse(
        scaled,
        315360000000,
        factor * reward + extra,
        (factor * rest) % 315360000000,
    );
}

} // verus!
