//! Reconfiguration: the authority changes any subset of the tunables.

use vstd::prelude::*;
use crate::error::CasinoError;
use crate::identity::Identity;
use crate::state::{
    bet_bounds_valid,
    percentages_valid,
    win_probability_valid,
    Config,
    JackpotPool,
    RewardVault,
};

verus! {

/// The records that one reconfiguration works on, and who asks for it.
#[derive(Clone, Copy, Debug, PartialEq, Eq)]
pub struct UpdateConfig {
    pub config: Config,
    pub pool: JackpotPool,
    pub reward_vault: RewardVault,
    /// The caller.
    pub authority: Identity,
}

/// Reported when the configuration was changed.
#[derive(Clone, Copy, Debug, PartialEq, Eq)]
pub struct ConfigUpdated {
    pub authority: Identity,
}

/// The value of a tunable after an update: the supplied one, else the stored one.
pub open spec fn merged<T>(supplied: Option<T>, stored: T) -> T {
    match supplied {
        Some(value) => value,
        None => stored,
    }
}

/// Why a reconfiguration is refused, or `None` where it goes through.
///
/// The caller must be the authority. After merging, the bet bounds must
/// satisfy `0 < min_bet <= max_bet` and the three percentages must sum to at
/// most 100% (a sum beyond 16 bits is an overflow). A supplied win probability
/// must lie in `1..=10000`.
pub open spec fn update_refusal(
    ctx: UpdateConfig,
    jackpot_percentage: Option<u16>,
    house_percentage: Option<u16>,
    defi_percentage: Option<u16>,
    min_bet: Option<u64>,
    max_bet: Option<u64>,
    win_probability_bps: Option<u16>,
) -> Option<CasinoError> {
    let jackpot = merged(jackpot_percentage, ctx.config.jackpot_percentage);
    let house = merged(house_percentage, ctx.config.house_percentage);
    let defi = merged(defi_percentage, ctx.config.defi_percentage);
    if ctx.authority != ctx.config.authority {
        Some(CasinoError::Unauthorized)
    } else if !bet_bounds_valid(merged(min_bet, ctx.config.min_bet), merged(max_bet, ctx.config.max_bet)) {
        Some(CasinoError::InvalidConfig)
    } else if win_probability_bps matches Some(probability) && !win_probability_valid(probability) {
        Some(CasinoError::InvalidConfig)
    } else if jackpot + house + defi > u16::MAX {
        Some(CasinoError::MathOverflow)
    } else if !percentages_valid(jackpot, house, defi) {
        Some(CasinoError::InvalidConfig)
    } else {
        None
    }
}

/// The records after a reconfiguration that goes through: each supplied
/// tunable replaces the stored one, everything else stays.
pub open spec fn update_effect(
    ctx: UpdateConfig,
    jackpot_percentage: Option<u16>,
    house_percentage: Option<u16>,
    defi_percentage: Option<u16>,
    min_bet: Option<u64>,
    max_bet: Option<u64>,
    win_probability_bps: Option<u16>,
    reset_threshold: Option<u64>,
    milestone_bets: Option<u64>,
    apy_bps: Option<u16>,
) -> UpdateConfig {
    UpdateConfig {
        config: Config {
            jackpot_percentage: merged(jackpot_percentage, ctx.config.jackpot_percentage),
            house_percentage: merged(house_percentage, ctx.config.house_percentage),
            defi_percentage: merged(defi_percentage, ctx.config.defi_percentage),
            min_bet: merged(min_bet, ctx.config.min_bet),
            max_bet: merged(max_bet, ctx.config.max_bet),
            win_probability_bps: merged(win_probability_bps, ctx.config.win_probability_bps),
            ..ctx.config
        },
        pool: JackpotPool {
            reset_threshold: merged(reset_threshold, ctx.pool.reset_threshold),
            milestone_bets: merged(milestone_bets, ctx.pool.milestone_bets),
            ..ctx.pool
        },
        reward_vault: RewardVault {
            apy_bps: merged(apy_bps, ctx.reward_vault.apy_bps),
            ..ctx.reward_vault
        },
        ..ctx
    }
}

/// Picks the supplied value of a tunable, else the stored one.
fn merge_u16(supplied: Option<u16>, stored: u16) -> (value: u16)
    ensures
        value == merged(supplied, stored),
{
    match supplied {
        Some(value) => value,
        None => stored,
    }
}

/// Picks the supplied value of a tunable, else the stored one.
fn merge_u64(supplied: Option<u64>, stored: u64) -> (value: u64)
    ensures
        value == merged(supplied, stored),
{
    match supplied {
        Some(value) => value,
        None => stored,
    }
}

/// Changes the tunables that are supplied and leaves the others.
///
/// Refused, with every record left as it was, for the reasons that
/// [`update_refusal`] lists; in particular whenever the merged percentages sum
/// to more than 100%.
pub fn update_config(
    ctx: &mut UpdateConfig,
    jackpot_percentage: Option<u16>,
    house_percentage: Option<u16>,
    defi_percentage: Option<u16>,
    min_bet: Option<u64>,
    max_bet: Option<u64>,
    win_probability_bps: Option<u16>,
    reset_threshold: Option<u64>,
    milestone_bets: Option<u64>,
    apy_bps: Option<u16>,
) -> (r: Result<ConfigUpdated, CasinoError>)
    ensures
        match r {
            Ok(event) => {
                &&& update_refusal(
                    *old(ctx),
                    jackpot_percentage,
                    house_percentage,
                    defi_percentage,
                    min_bet,
                    max_bet,
                    win_probability_bps,
                ) is None
                &&& *final(ctx) == update_effect(
                    *old(ctx),
                    jackpot_percentage,
                    house_percentage,
                    defi_percentage,
                    min_bet,
                    max_bet,
                    win_probability_bps,
                    reset_threshold,
                    milestone_bets,
                    apy_bps,
                )
                &&& event.authority == old(ctx).authority
            },
            Err(e) => {
                &&& update_refusal(
                    *old(ctx),
                    jackpot_percentage,
                    house_percentage,
                    defi_percentage,
                    min_bet,
                    max_bet,
                    win_probability_bps,
                ) == Some(e)
                &&& *final(ctx) == *old(ctx)
            },
        },
        old(ctx).authority != old(ctx).config.authority ==> r == Err::<ConfigUpdated, CasinoError>(
            CasinoError::Unauthorized,
        ),
        // Percentages that sum to more than 100% after merging are never accepted.
        merged(jackpot_percentage, old(ctx).config.jackpot_percentage) + merged(
            house_percentage,
            old(ctx).config.house_percentage,
        ) + merged(defi_percentage, old(ctx).config.defi_percentage) > 10000 ==> r is Err
            && *final(ctx) == *old(ctx),
        r is Ok && old(ctx).config.wf() ==> final(ctx).config.wf(),
{
    if ctx.authority != ctx.config.authority {
        return Err(CasinoError::Unauthorized);
    }
    let jackpot = merge_u16(jackpot_percentage, ctx.config.jackpot_percentage);
    let house = merge_u16(house_percentage, ctx.config.house_percentage);
    let defi = merge_u16(defi_percentage, ctx.config.defi_percentage);
    let lowest = merge_u64(min_bet, ctx.config.min_bet);
    let highest = merge_u64(max_bet, ctx.config.max_bet);
    if !(lowest > 0 && highest >= lowest) {
        return Err(CasinoError::InvalidConfig);
    }
    match win_probability_bps {
        Some(probability) => {
            if !(probability > 0 && probability <= 10000) {
                return Err(CasinoError::InvalidConfig);
            }
        },
        None => {},
    }
    let partial_percentage = match jackpot.checked_add(house) {
        Some(sum) => sum,
        None => { return Err(CasinoError::MathOverflow); },
    };
    let total_percentage = match partial_percentage.checked_add(defi) {
        Some(sum) => sum,
        None => { return Err(CasinoError::MathOverflow); },
    };
    if total_percentage > 10000 {
        return Err(CasinoError::InvalidConfig);
    }
    ctx.config.jackpot_percentage = jackpot;
    ctx.config.house_percentage = house;
    ctx.config.defi_percentage = defi;
    ctx.config.min_bet = lowest;
    ctx.config.max_bet = highest;
    ctx.config.win_probability_bps = merge_u16(win_probability_bps, ctx.config.win_probability_bps);
    ctx.pool.reset_threshold = merge_u64(reset_threshold, ctx.pool.reset_threshold);
    ctx.pool.milestone_bets = merge_u64(milestone_bets, ctx.pool.milestone_bets);
    ctx.reward_vault.apy_bps = merge_u16(apy_bps, ctx.reward_vault.apy_bps);
    Ok(ConfigUpdated { authority: ctx.authority })
}

} // verus!
