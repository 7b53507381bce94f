//! Fulfilment: a delivered random value settles the stake it was requested for.

use vstd::prelude::*;
use crate::error::CasinoError;
use crate::basis_points::lemma_portion_within_amount;
use crate::identity::Identity;
use crate::randomness::{is_timed_out, timed_out};
use crate::state::{Bet, BetStatus, Config, JackpotPool, VrfRequest, VrfStatus};
use crate::win_determination::{
    decision_of,
    determine_win,
    reset_due,
    reset_payout,
    reset_payout_of,
    WinDecision,
};

verus! {

/// The records that one fulfilment works on, and who takes part in it.
#[derive(Clone, Copy, Debug, PartialEq, Eq)]
pub struct FulfillJackpot {
    pub config: Config,
    pub pool: JackpotPool,
    /// The stake to settle.
    pub bet: Bet,
    /// The request whose result is delivered.
    pub vrf_request: VrfRequest,
    /// The identity under which `bet` is kept.
    pub bet_key: Identity,
    /// Who receives the payouts.
    pub player: Identity,
}

/// Reported when a stake wins.
#[derive(Clone, Copy, Debug, PartialEq, Eq)]
pub struct JackpotWon {
    pub player: Identity,
    /// What the win paid.
    pub amount: u64,
    /// The pool balance after the win was paid.
    pub pool_balance: u64,
    /// The roll that won.
    pub vrf_value: u64,
}

/// Reported when a stake loses.
#[derive(Clone, Copy, Debug, PartialEq, Eq)]
pub struct JackpotLoss {
    pub player: Identity,
    /// The roll that lost.
    pub vrf_value: u64,
}

/// How a stake was settled.
#[derive(Clone, Copy, Debug, PartialEq, Eq)]
pub enum Settlement {
    Won(JackpotWon),
    Lost(JackpotLoss),
}

/// What a fulfilment asks the host to do: pay the win, if there is one, and
/// the reset payout, if a reset fired, both out of the pool to the player.
#[derive(Clone, Copy, Debug, PartialEq, Eq)]
pub struct Fulfillment {
    pub settlement: Settlement,
    /// The payout of the automatic reset, where one fired.
    pub reset_payout: Option<u64>,
}

impl Fulfillment {
    /// Everything that leaves the pool.
    pub open spec fn total_paid(self) -> int {
        (match self.settlement {
            Settlement::Won(won) => won.amount as int,
            Settlement::Lost(_) => 0,
        }) + (match self.reset_payout {
            Some(payout) => payout as int,
            None => 0,
        })
    }
}

/// Why a fulfilment is refused, or `None` where it goes through.
///
/// The request must be pending, must serve the given stake and must not have
/// expired. A win must be payable and countable in 64 bits.
pub open spec fn fulfill_refusal(ctx: FulfillJackpot, now: i64, vrf_result: [u8; 32]) -> Option<
    CasinoError,
> {
    if ctx.vrf_request.status != VrfStatus::Pending {
        Some(CasinoError::VrfRequestNotFound)
    } else if ctx.vrf_request.bet != ctx.bet_key {
        Some(CasinoError::InvalidVrfAuthority)
    } else if timed_out(ctx.vrf_request.timestamp, now) {
        Some(CasinoError::VrfTimeout)
    } else {
        match decision_of(vrf_result@, ctx.config.win_probability_bps, ctx.pool.balance) {
            Err(e) => Some(e),
            Ok(decision) => if decision.won() && ctx.config.total_wins == u64::MAX {
                Some(CasinoError::MathOverflow)
            } else {
                None
            },
        }
    }
}

/// The decision that a fulfilment that goes through is based on.
pub open spec fn fulfill_decision(ctx: FulfillJackpot, vrf_result: [u8; 32]) -> WinDecision {
    decision_of(vrf_result@, ctx.config.win_probability_bps, ctx.pool.balance).unwrap()
}

/// The pool balance after the win, if any, was paid, and before a reset.
pub open spec fn balance_after_settlement(ctx: FulfillJackpot, vrf_result: [u8; 32]) -> u64 {
    (ctx.pool.balance - fulfill_decision(ctx, vrf_result).payout) as u64
}

/// The records after a fulfilment that goes through.
pub open spec fn fulfill_effect(ctx: FulfillJackpot, now: i64, vrf_result: [u8; 32]) -> FulfillJackpot {
    let decision = fulfill_decision(ctx, vrf_result);
    let settled = balance_after_settlement(ctx, vrf_result);
    let reset = reset_due(settled, ctx.pool.reset_threshold);
    FulfillJackpot {
        config: Config {
            total_wins: if decision.won() {
                (ctx.config.total_wins + 1) as u64
            } else {
                ctx.config.total_wins
            },
            ..ctx.config
        },
        pool: JackpotPool {
            balance: (settled - reset_payout_of(settled, ctx.pool.reset_threshold)) as u64,
            last_winner: if decision.won() {
                Some(ctx.player)
            } else {
                ctx.pool.last_winner
            },
            last_win_timestamp: if decision.won() {
                Some(now)
            } else {
                ctx.pool.last_win_timestamp
            },
            bets_since_win: if decision.won() || reset {
                0
            } else {
                ctx.pool.bets_since_win
            },
            ..ctx.pool
        },
        bet: Bet {
            status: if decision.won() {
                BetStatus::Won
            } else {
                BetStatus::Lost
            },
            win_amount: decision.payout,
            ..ctx.bet
        },
        vrf_request: VrfRequest {
            status: VrfStatus::Fulfilled,
            result: Some(vrf_result),
            ..ctx.vrf_request
        },
        ..ctx
    }
}

/// What a fulfilment that goes through reports and pays.
pub open spec fn fulfill_outcome(ctx: FulfillJackpot, vrf_result: [u8; 32]) -> Fulfillment {
    let decision = fulfill_decision(ctx, vrf_result);
    let settled = balance_after_settlement(ctx, vrf_result);
    Fulfillment {
        settlement: if decision.won() {
            Settlement::Won(
                JackpotWon {
                    player: ctx.player,
                    amount: decision.payout,
                    pool_balance: settled,
                    vrf_value: decision.roll,
                },
            )
        } else {
            Settlement::Lost(JackpotLoss { player: ctx.player, vrf_value: decision.roll })
        },
        reset_payout: if reset_due(settled, ctx.pool.reset_threshold) {
            Some((ctx.pool.reset_threshold / 2) as u64)
        } else {
            None
        },
    }
}

/// Settles a stake with the random value delivered for its request.
///
/// Refused, with every record left as it was, for the reasons that
/// [`fulfill_refusal`] lists. Otherwise the request becomes fulfilled and keeps
/// the value; the stake is won or lost as [`decision_of`] says; a win is paid
/// out of the pool, recorded there and counted; and, won or lost, a pool that
/// then stands at or above its reset threshold pays half the threshold and
/// starts counting stakes anew.
pub fn fulfill_jackpot(ctx: &mut FulfillJackpot, now: i64, vrf_result: [u8; 32]) -> (r: Result<
    Fulfillment,
    CasinoError,
>)
    ensures
        match r {
            Ok(outcome) => {
                &&& fulfill_refusal(*old(ctx), now, vrf_result) is None
                &&& *final(ctx) == fulfill_effect(*old(ctx), now, vrf_result)
                &&& outcome == fulfill_outcome(*old(ctx), vrf_result)
                &&& final(ctx).pool.balance + outcome.total_paid() == old(ctx).pool.balance
            },
            Err(e) => {
                &&& fulfill_refusal(*old(ctx), now, vrf_result) == Some(e)
                &&& *final(ctx) == *old(ctx)
            },
        },
        // Only a pending request is ever fulfilled.
        old(ctx).vrf_request.status != VrfStatus::Pending ==> r == Err::<Fulfillment, CasinoError>(
            CasinoError::VrfRequestNotFound,
        ),
        // An expired request is refused whatever value is delivered.
        old(ctx).vrf_request.status == VrfStatus::Pending && old(ctx).vrf_request.bet == old(
            ctx,
        ).bet_key && timed_out(old(ctx).vrf_request.timestamp, now) ==> r == Err::<
            Fulfillment,
            CasinoError,
        >(CasinoError::VrfTimeout),
        // The reset fires on the settled balance, whether the stake won or lost.
        r matches Ok(outcome) ==> {
            let settled = balance_after_settlement(*old(ctx), vrf_result);
            if old(ctx).pool.reset_threshold > 0 && settled >= old(ctx).pool.reset_threshold {
                &&& outcome.reset_payout == Some((old(ctx).pool.reset_threshold / 2) as u64)
                &&& final(ctx).pool.balance == settled - old(ctx).pool.reset_threshold / 2
                &&& final(ctx).pool.bets_since_win == 0
            } else {
                &&& outcome.reset_payout is None
                &&& final(ctx).pool.balance == settled
            }
        },
        r is Ok && old(ctx).config.wf() ==> final(ctx).config.wf(),
        r is Ok ==> final(ctx).bet.wf() && final(ctx).vrf_request.wf(),
{
    if ctx.vrf_request.status != VrfStatus::Pending {
        return Err(CasinoError::VrfRequestNotFound);
    }
    if ctx.vrf_request.bet != ctx.bet_key {
        return Err(CasinoError::InvalidVrfAuthority);
    }
    if is_timed_out(ctx.vrf_request.timestamp, now) {
        return Err(CasinoError::VrfTimeout);
    }
    let decision = match determine_win(
        &vrf_result,
        ctx.config.win_probability_bps,
        ctx.pool.balance,
    ) {
        Ok(decision) => decision,
        Err(e) => { return Err(e); },
    };
    let won = decision.tier.is_some();
    let total_wins = if won {
        match ctx.config.total_wins.checked_add(1) {
            Some(total) => total,
            None => { return Err(CasinoError::MathOverflow); },
        }
    } else {
        ctx.config.total_wins
    };
    let settled: u64 = ctx.pool.balance - decision.payout;
    let reset = reset_payout(settled, ctx.pool.reset_threshold);

    ctx.vrf_request.status = VrfStatus::Fulfilled;
    ctx.vrf_request.result = Some(vrf_result);
    ctx.config.total_wins = total_wins;
    ctx.bet.win_amount = decision.payout;
    let settlement = if won {
        ctx.pool.last_winner = Some(ctx.player);
        ctx.pool.last_win_timestamp = Some(now);
        ctx.pool.bets_since_win = 0;
        ctx.bet.status = BetStatus::Won;
        Settlement::Won(
            JackpotWon {
                player: ctx.player,
                amount: decision.payout,
                pool_balance: settled,
                vrf_value: decision.roll,
            },
        )
    } else {
        ctx.bet.status = BetStatus::Lost;
        Settlement::Lost(JackpotLoss { player: ctx.player, vrf_value: decision.roll })
    };
    ctx.pool.balance = settled;
    match reset {
        Some(payout) => {
            ctx.pool.balance = settled - payout;
            ctx.pool.bets_since_win = 0;
        },
        None => {},
    }
    Ok(Fulfillment { settlement, reset_payout: reset })
}

/// Win or loss, tier and payout are a function of the delivered value, the
/// win probability and the pool balance alone: two fulfilments that agree on
/// these three are decided alike, whatever else differs between them.
pub proof fn lemma_decision_depends_on_value_probability_and_balance(
    first: FulfillJackpot,
    second: FulfillJackpot,
    vrf_result: [u8; 32],
)
    requires
        first.config.win_probability_bps == second.config.win_probability_bps,
        first.pool.balance == second.pool.balance,
    ensures
        decision_of(vrf_result@, first.config.win_probability_bps, first.pool.balance)
            == decision_of(vrf_result@, second.config.win_probability_bps, second.pool.balance),
        fulfill_decision(first, vrf_result) == fulfill_decision(second, vrf_result),
{
}

/// A request is fulfilled at most once: after a fulfilment that went through,
/// every further fulfilment on the same records is refused, at any time and
/// with any value, and so changes nothing.
pub proof fn lemma_fulfilled_request_is_refused(
    ctx: FulfillJackpot,
    now: i64,
    vrf_result: [u8; 32],
    later: i64,
    other_result: [u8; 32],
)
    requires
        fulfill_refusal(ctx, now, vrf_result) is None,
    ensures
        fulfill_refusal(fulfill_effect(ctx, now, vrf_result), later, other_result) == Some(
            CasinoError::VrfRequestNotFound,
        ),
{
}

/// Whether a request has expired does not depend on the value delivered.
pub proof fn lemma_expired_request_is_refused(ctx: FulfillJackpot, now: i64, vrf_result: [u8; 32])
    requires
        ctx.vrf_request.status == VrfStatus::Pending,
        ctx.vrf_request.bet == ctx.bet_key,
        now - ctx.vrf_request.timestamp >= 3600,
    ensures
        fulfill_refusal(ctx, now, vrf_result) == Some(CasinoError::VrfTimeout),
{
}

/// What a fulfilment pays never exceeds what the pool held, so the balance
/// never falls below zero.
pub proof fn lemma_fulfillment_is_covered(ctx: FulfillJackpot, now: i64, vrf_result: [u8; 32])
    requires
        fulfill_refusal(ctx, now, vrf_result) is None,
    ensures
        0 <= fulfill_outcome(ctx, vrf_result).total_paid() <= ctx.pool.balance,
        fulfill_effect(ctx, now, vrf_result).pool.balance == ctx.pool.balance - fulfill_outcome(
            ctx,
            vrf_result,
        ).total_paid(),
{
    let decision = fulfill_decision(ctx, vrf_result);
    if decision.tier is Some {
        lemma_portion_within_amount(
            ctx.pool.balance as int,
            decision.tier.unwrap().spec_multiplier() as int,
        );
    }
}

} // verus!
