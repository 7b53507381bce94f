//! Splitting a stake among the jackpot pool, the house and the yield reserve.

use vstd::prelude::*;
use crate::basis_points::{checked_portion, lemma_portions_within_amount, portion};
use crate::error::CasinoError;
use crate::state::{percentages_valid, Config};

verus! {

/// The three shares of one stake. What is left of the stake stays with the player.
#[derive(Clone, Copy, Debug, PartialEq, Eq, Structural)]
pub struct Distribution {
    /// The share credited to the jackpot pool.
    pub jackpot_contribution: u64,
    /// The share that goes to the house.
    pub house_fee: u64,
    /// The share staked into the yield reserve.
    pub defi_contribution: u64,
}

impl Distribution {
    /// What the player pays in all.
    pub open spec fn total(self) -> int {
        self.jackpot_contribution + self.house_fee + self.defi_contribution
    }
}

/// Whether one of the three shares of `amount` cannot be computed in 64 bits.
pub open spec fn distribution_overflows(amount: u64, config: Config) -> bool {
    ||| amount * config.jackpot_percentage > u64::MAX
    ||| amount * config.house_percentage > u64::MAX
    ||| amount * config.defi_percentage > u64::MAX
}

/// The split of a stake under a configuration: each share is its percentage of
/// the stake, rounded down. A stake outside the configured bounds is refused,
/// and so is one whose shares cannot be computed in 64 bits.
pub open spec fn distribution_of(amount: u64, config: Config) -> Result<Distribution, CasinoError> {
    if amount < config.min_bet {
        Err(CasinoError::BetTooSmall)
    } else if amount > config.max_bet {
        Err(CasinoError::BetTooLarge)
    } else if distribution_overflows(amount, config) {
        Err(CasinoError::MathOverflow)
    } else {
        Ok(
            Distribution {
                jackpot_contribution: portion(amount as int, config.jackpot_percentage as int) as u64,
                house_fee: portion(amount as int, config.house_percentage as int) as u64,
                defi_contribution: portion(amount as int, config.defi_percentage as int) as u64,
            },
        )
    }
}

/// Splits a stake; see [`distribution_of`]. Under percentages that sum to at
/// most 100% the shares never add up to more than the stake.
pub fn distribute(amount: u64, config: &Config) -> (r: Result<Distribution, CasinoError>)
    ensures
        r == distribution_of(amount, *config),
        r matches Ok(shares) ==> {
            &&& shares.jackpot_contribution == amount * config.jackpot_percentage / 10000
            &&& shares.house_fee == amount * config.house_percentage / 10000
            &&& shares.defi_contribution == amount * config.defi_percentage / 10000
        },
        r matches Ok(shares) ==> (percentages_valid(
            config.jackpot_percentage,
            config.house_percentage,
            config.defi_percentage,
        ) ==> shares.total() <= amount),
{
    if amount < config.min_bet {
        return Err(CasinoError::BetTooSmall);
    }
    if amount > config.max_bet {
        return Err(CasinoError::BetTooLarge);
    }
    let jackpot_contribution = match checked_portion(amount, config.jackpot_percentage as u64) {
        Ok(share) => share,
        Err(e) => { return Err(e); },
    };
    let house_fee = match checked_portion(amount, config.house_percentage as u64) {
        Ok(share) => share,
        Err(e) => { return Err(e); },
    };
    let defi_contribution = match checked_portion(amount, config.defi_percentage as u64) {
        Ok(share) => share,
        Err(e) => { return Err(e); },
    };
    proof {
        if percentages_valid(
            config.jackpot_percentage,
            config.house_percentage,
            config.defi_percentage,
        ) {
            lemma_portions_within_amount(
                amount as int,
                config.jackpot_percentage as int,
                config.house_percentage as int,
                config.defi_percentage as int,
            );
        }
    }
    Ok(Distribution { jackpot_contribution, house_fee, defi_contribution })
}

/// Rounding down never over-allocates: for every stake and every three
/// percentages that sum to at most 100%, the three shares together are at most
/// the stake.
pub proof fn lemma_shares_within_stake(amount: u64, jackpot: u16, house: u16, defi: u16)
    requires
        percentages_valid(jackpot, house, defi),
    ensures
        portion(amount as int, jackpot as int) + portion(amount as int, house as int) + portion(
            amount as int,
            defi as int,
        ) <= amount,
{
    lemma_portions_within_amount(amount as int, jackpot as int, house as int, defi as int);
}

/// Under a valid configuration the shares of a stake can be computed unless
/// the stake itself, taken 10000 times, exceeds 64 bits.
pub proof fn lemma_overflow_needs_huge_stake(amount: u64, config: Config)
    requires
        config.wf(),
        distribution_overflows(amount, config),
    ensures
        amount * 10000 > u64::MAX,
{
    if amount * 10000 <= u64::MAX {
        assert(amount * config.jackpot_percentage <= amount * 10000 && amount
            * config.house_percentage <= amount * 10000 && amount * config.defi_percentage
            <= amount * 10000) by (nonlinear_arith)
            requires
                config.jackpot_percentage <= 10000,
                config.house_percentage <= 10000,
                config.defi_percentage <= 10000,
        ;
    }
}

} // verus!
