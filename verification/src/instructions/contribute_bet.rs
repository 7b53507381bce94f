//! Contribution: a player stakes, the stake is split, and a randomness request
//! is opened for it where the milestone policy asks for one.

use vstd::prelude::*;
use crate::distribution::{distribute, distribution_of, Distribution};
use crate::error::CasinoError;
use crate::identity::Identity;
use crate::randomness::{request_id_at, request_id_for};
use crate::state::{Bet, BetStatus, Config, JackpotPool, RewardVault, VrfRequest, VrfStatus};

verus! {

/// The records that one contribution works on, and who contributes.
#[derive(Clone, Copy, Debug, PartialEq, Eq)]
pub struct ContributeBet {
    pub config: Config,
    pub pool: JackpotPool,
    pub reward_vault: RewardVault,
    /// The record that will hold the stake.
    pub bet: Bet,
    /// The record that will hold the randomness request, if one is opened.
    pub vrf_request: VrfRequest,
    /// The identity under which `bet` is kept.
    pub bet_key: Identity,
    /// Who stakes.
    pub player: Identity,
}

/// The address seeds of the two records that a contribution fills.
#[derive(Clone, Copy, Debug, PartialEq, Eq, Structural)]
pub struct ContributeBetBumps {
    pub bet: u8,
    pub vrf_request: u8,
}

/// Reported when a stake is accepted.
#[derive(Clone, Copy, Debug, PartialEq, Eq)]
pub struct BetContributed {
    pub player: Identity,
    pub amount: u64,
    /// The share credited to the jackpot pool.
    pub jackpot_contribution: u64,
    /// The pool balance after the credit.
    pub pool_balance: u64,
}

/// What an accepted contribution asks the host to do: move the three shares
/// from the player to the pool, the house and the reserve.
#[derive(Clone, Copy, Debug, PartialEq, Eq)]
pub struct Contribution {
    pub distribution: Distribution,
    /// Whether a randomness request was opened for the stake.
    pub request_opened: bool,
    pub event: BetContributed,
}

/// Whether the stake that a pool receives next gets a randomness request: every
/// stake where no milestone is set, else the stake with which the count since
/// the last win reaches the milestone.
pub open spec fn next_stake_opens_request(pool: JackpotPool) -> bool {
    pool.milestone_bets == 0 || pool.bets_since_win + 1 >= pool.milestone_bets
}

/// Why a contribution is refused, or `None` where it is accepted.
///
/// The stake must lie within the configured bounds, its shares must be
/// computable, and no balance or counter may exceed 64 bits by it.
pub open spec fn contribute_refusal(ctx: ContributeBet, amount: u64) -> Option<CasinoError> {
    match distribution_of(amount, ctx.config) {
        Err(e) => Some(e),
        Ok(shares) => if ctx.pool.balance + shares.jackpot_contribution > u64::MAX
            || ctx.pool.bets_since_win == u64::MAX || ctx.config.total_bets == u64::MAX
            || ctx.reward_vault.staked_amount + shares.defi_contribution > u64::MAX {
            Some(CasinoError::MathOverflow)
        } else {
            None
        },
    }
}

/// The records after an accepted contribution.
pub open spec fn contribute_effect(
    ctx: ContributeBet,
    bumps: ContributeBetBumps,
    now: i64,
    amount: u64,
) -> ContributeBet {
    let shares = distribution_of(amount, ctx.config).unwrap();
    let opened = next_stake_opens_request(ctx.pool);
    ContributeBet {
        config: Config { total_bets: (ctx.config.total_bets + 1) as u64, ..ctx.config },
        pool: JackpotPool {
            balance: (ctx.pool.balance + shares.jackpot_contribution) as u64,
            bets_since_win: (ctx.pool.bets_since_win + 1) as u64,
            ..ctx.pool
        },
        reward_vault: RewardVault {
            staked_amount: (ctx.reward_vault.staked_amount + shares.defi_contribution) as u64,
            ..ctx.reward_vault
        },
        bet: Bet {
            player: ctx.player,
            amount,
            timestamp: now,
            vrf_request_id: if opened {
                Some(request_id_at(now))
            } else {
                None
            },
            status: BetStatus::Pending,
            win_amount: 0,
            bump: bumps.bet,
        },
        vrf_request: if opened {
            VrfRequest {
                bet: ctx.bet_key,
                player: ctx.player,
                timestamp: now,
                request_id: request_id_at(now),
                status: VrfStatus::Pending,
                result: None,
                bump: bumps.vrf_request,
            }
        } else {
            ctx.vrf_request
        },
        ..ctx
    }
}

/// What an accepted contribution reports and asks to be moved.
pub open spec fn contribute_outcome(ctx: ContributeBet, amount: u64) -> Contribution {
    let shares = distribution_of(amount, ctx.config).unwrap();
    Contribution {
        distribution: shares,
        request_opened: next_stake_opens_request(ctx.pool),
        event: BetContributed {
            player: ctx.player,
            amount,
            jackpot_contribution: shares.jackpot_contribution,
            pool_balance: (ctx.pool.balance + shares.jackpot_contribution) as u64,
        },
    }
}

/// Accepts a stake of `amount` at time `now`.
///
/// Refused, with every record left as it was, for the reasons that
/// [`contribute_refusal`] lists. Otherwise the pool is credited with the
/// jackpot share and the reserve with its share, the stake is counted and
/// recorded as pending, and a pending randomness request named after `now` is
/// opened for it where [`next_stake_opens_request`] holds.
pub fn contribute_bet(ctx: &mut ContributeBet, bumps: ContributeBetBumps, now: i64, amount: u64) -> (r:
    Result<Contribution, CasinoError>)
    ensures
        match r {
            Ok(outcome) => {
                &&& contribute_refusal(*old(ctx), amount) is None
                &&& *final(ctx) == contribute_effect(*old(ctx), bumps, now, amount)
                &&& outcome == contribute_outcome(*old(ctx), amount)
                &&& final(ctx).pool.balance == old(ctx).pool.balance
                    + outcome.distribution.jackpot_contribution
                &&& final(ctx).reward_vault.staked_amount == old(ctx).reward_vault.staked_amount
                    + outcome.distribution.defi_contribution
            },
            Err(e) => {
                &&& contribute_refusal(*old(ctx), amount) == Some(e)
                &&& *final(ctx) == *old(ctx)
            },
        },
        amount < old(ctx).config.min_bet ==> r == Err::<Contribution, CasinoError>(
            CasinoError::BetTooSmall,
        ),
        old(ctx).config.min_bet <= amount && amount > old(ctx).config.max_bet ==> r == Err::<
            Contribution,
            CasinoError,
        >(CasinoError::BetTooLarge),
        r matches Ok(outcome) ==> (old(ctx).config.wf() ==> outcome.distribution.total() <= amount),
        r is Ok && old(ctx).config.wf() ==> final(ctx).config.wf(),
        r is Ok ==> final(ctx).bet.wf(),
        r is Ok && old(ctx).vrf_request.wf() ==> final(ctx).vrf_request.wf(),
{
    let shares = match distribute(amount, &ctx.config) {
        Ok(shares) => shares,
        Err(e) => { return Err(e); },
    };
    let balance = match ctx.pool.balance.checked_add(shares.jackpot_contribution) {
        Some(balance) => balance,
        None => { return Err(CasinoError::MathOverflow); },
    };
    let bets_since_win = match ctx.pool.bets_since_win.checked_add(1) {
        Some(count) => count,
        None => { return Err(CasinoError::MathOverflow); },
    };
    let total_bets = match ctx.config.total_bets.checked_add(1) {
        Some(count) => count,
        None => { return Err(CasinoError::MathOverflow); },
    };
    let staked_amount = match ctx.reward_vault.staked_amount.checked_add(shares.defi_contribution) {
        Some(staked) => staked,
        None => { return Err(CasinoError::MathOverflow); },
    };
    let request_opened = if ctx.pool.milestone_bets > 0 {
        bets_since_win >= ctx.pool.milestone_bets
    } else {
        true
    };

    ctx.pool.balance = balance;
    ctx.pool.bets_since_win = bets_since_win;
    ctx.config.total_bets = total_bets;
    ctx.reward_vault.staked_amount = staked_amount;
    let vrf_request_id = if request_opened {
        let request_id = request_id_for(now);
        ctx.vrf_request = VrfRequest {
            bet: ctx.bet_key,
            player: ctx.player,
            timestamp: now,
            request_id,
            status: VrfStatus::Pending,
            result: None,
            bump: bumps.vrf_request,
        };
        Some(request_id)
    } else {
        None
    };
    ctx.bet = Bet {
        player: ctx.player,
        amount,
        timestamp: now,
        vrf_request_id,
        status: BetStatus::Pending,
        win_amount: 0,
        bump: bumps.bet,
    };
    Ok(
        Contribution {
            distribution: shares,
            request_opened,
            event: BetContributed {
                player: ctx.player,
                amount,
                jackpot_contribution: shares.jackpot_contribution,
                pool_balance: balance,
            },
        },
    )
}

} // verus!
