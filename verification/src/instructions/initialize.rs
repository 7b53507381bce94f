//! Initialisation: the configuration, the pool and the reserve are created.

use vstd::prelude::*;
use crate::error::CasinoError;
use crate::identity::Identity;
use crate::state::{
    bet_bounds_valid,
    percentages_valid,
    win_probability_valid,
    Config,
    JackpotPool,
    RewardVault,
    DEFAULT_DISTRIBUTION_PERIOD,
    MAX_VRF_PROVIDER,
};

verus! {

/// The records that initialisation fills, and who initialises.
#[derive(Clone, Copy, Debug, PartialEq, Eq)]
pub struct Initialize {
    pub config: Config,
    pub pool: JackpotPool,
    pub reward_vault: RewardVault,
    /// The caller, who becomes the authority.
    pub authority: Identity,
}

/// The address seeds of the three records that initialisation fills.
#[derive(Clone, Copy, Debug, PartialEq, Eq, Structural)]
pub struct InitializeBumps {
    pub config: u8,
    pub pool: u8,
    pub reward_vault: u8,
}

/// Why an initialisation is refused, or `None` where it goes through.
///
/// The three percentages must sum to at most 100% (a sum beyond 16 bits is an
/// overflow), the bet bounds must satisfy `0 < min_bet <= max_bet`, the win
/// probability must lie in `1..=10000`, and the oracle selector must be known.
pub open spec fn initialize_refusal(
    jackpot_percentage: u16,
    house_percentage: u16,
    defi_percentage: u16,
    min_bet: u64,
    max_bet: u64,
    win_probability_bps: u16,
    vrf_provider: u8,
) -> Option<CasinoError> {
    if jackpot_percentage + house_percentage + defi_percentage > u16::MAX {
        Some(CasinoError::MathOverflow)
    } else if !percentages_valid(jackpot_percentage, house_percentage, defi_percentage)
        || !bet_bounds_valid(min_bet, max_bet) || !win_probability_valid(win_probability_bps)
        || vrf_provider > MAX_VRF_PROVIDER {
        Some(CasinoError::InvalidConfig)
    } else {
        None
    }
}

/// The configuration that initialisation writes.
pub open spec fn initial_config(
    authority: Identity,
    bumps: InitializeBumps,
    jackpot_percentage: u16,
    house_percentage: u16,
    defi_percentage: u16,
    min_bet: u64,
    max_bet: u64,
    win_probability_bps: u16,
    vrf_provider: u8,
    orao_network: Option<Identity>,
    switchboard_queue: Option<Identity>,
) -> Config {
    Config {
        authority,
        jackpot_percentage,
        house_percentage,
        defi_percentage,
        min_bet,
        max_bet,
        win_probability_bps,
        vrf_provider,
        orao_network,
        switchboard_queue,
        defi_vault_bump: bumps.reward_vault,
        total_bets: 0,
        total_wins: 0,
        bump: bumps.config,
    }
}

/// The pool that initialisation writes: empty, with no winner yet.
pub open spec fn initial_pool(bumps: InitializeBumps, reset_threshold: u64, milestone_bets: u64) -> JackpotPool {
    JackpotPool {
        balance: 0,
        last_winner: None,
        last_win_timestamp: None,
        reset_threshold,
        bets_since_win: 0,
        milestone_bets,
        bump: bumps.pool,
    }
}

/// The reserve that initialisation writes: nothing staked, nothing paid, a
/// distribution period of one day.
pub open spec fn initial_reward_vault(bumps: InitializeBumps, now: i64, apy_bps: u16) -> RewardVault {
    RewardVault {
        staked_amount: 0,
        total_rewards_distributed: 0,
        last_distribution: now,
        distribution_period: DEFAULT_DISTRIBUTION_PERIOD,
        apy_bps,
        bump: bumps.reward_vault,
    }
}

/// Creates the configuration, the pool and the reserve at time `now`, with the
/// caller as authority.
///
/// Refused, with every record left as it was, for the reasons that
/// [`initialize_refusal`] lists. Otherwise the three records are written as
/// [`initial_config`], [`initial_pool`] and [`initial_reward_vault`] say.
pub fn initialize(
    ctx: &mut Initialize,
    bumps: InitializeBumps,
    now: i64,
    jackpot_percentage: u16,
    house_percentage: u16,
    defi_percentage: u16,
    min_bet: u64,
    max_bet: u64,
    win_probability_bps: u16,
    vrf_provider: u8,
    orao_network: Option<Identity>,
    switchboard_queue: Option<Identity>,
    reset_threshold: u64,
    milestone_bets: u64,
    apy_bps: u16,
) -> (r: Result<(), CasinoError>)
    ensures
        match r {
            Ok(_) => {
                &&& initialize_refusal(
                    jackpot_percentage,
                    house_percentage,
                    defi_percentage,
                    min_bet,
                    max_bet,
                    win_probability_bps,
                    vrf_provider,
                ) is None
                &&& final(ctx).config == initial_config(
                    old(ctx).authority,
                    bumps,
                    jackpot_percentage,
                    house_percentage,
                    defi_percentage,
                    min_bet,
                    max_bet,
                    win_probability_bps,
                    vrf_provider,
                    orao_network,
                    switchboard_queue,
                )
                &&& final(ctx).pool == initial_pool(bumps, reset_threshold, milestone_bets)
                &&& final(ctx).reward_vault == initial_reward_vault(bumps, now, apy_bps)
                &&& final(ctx).authority == old(ctx).authority
                &&& final(ctx).config.wf()
            },
            Err(e) => {
                &&& initialize_refusal(
                    jackpot_percentage,
                    house_percentage,
                    defi_percentage,
                    min_bet,
                    max_bet,
                    win_probability_bps,
                    vrf_provider,
                ) == Some(e)
                &&& *final(ctx) == *old(ctx)
            },
        },
{
    let partial_percentage = match jackpot_percentage.checked_add(house_percentage) {
        Some(sum) => sum,
        None => { return Err(CasinoError::MathOverflow); },
    };
    let total_percentage = match partial_percentage.checked_add(defi_percentage) {
        Some(sum) => sum,
        None => { return Err(CasinoError::MathOverflow); },
    };
    if total_percentage > 10000 {
        return Err(CasinoError::InvalidConfig);
    }
    if !(min_bet > 0 && max_bet >= min_bet) {
        return Err(CasinoError::InvalidConfig);
    }
    if !(win_probability_bps > 0 && win_probability_bps <= 10000) {
        return Err(CasinoError::InvalidConfig);
    }
    if vrf_provider > MAX_VRF_PROVIDER {
        return Err(CasinoError::InvalidConfig);
    }
    ctx.config = Config {
        authority: ctx.authority,
        jackpot_percentage,
        house_percentage,
        defi_percentage,
        min_bet,
        max_bet,
        win_probability_bps,
        vrf_provider,
        orao_network,
        switchboard_queue,
        defi_vault_bump: bumps.reward_vault,
        total_bets: 0,
        total_wins: 0,
        bump: bumps.config,
    };
    ctx.pool = JackpotPool {
        balance: 0,
        last_winner: None,
        last_win_timestamp: None,
        reset_threshold,
        bets_since_win: 0,
        milestone_bets,
        bump: bumps.pool,
    };
    ctx.reward_vault = RewardVault {
        staked_amount: 0,
        total_rewards_distributed: 0,
        last_distribution: now,
        distribution_period: DEFAULT_DISTRIBUTION_PERIOD,
        apy_bps,
        bump: bumps.reward_vault,
    };
    Ok(())
}

} // verus!
