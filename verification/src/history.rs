//! What holds of the shared records over any sequence of calls.
//!
//! The configuration, the pool and the reserve exist once; each call works on
//! them together with records of its own. This module follows the shared
//! records through a sequence of calls, each of which either goes through or
//! is refused and changes nothing.

use vstd::prelude::*;
use crate::identity::Identity;
use crate::instructions::claim_rewards::{claim_effect, claim_refusal, ClaimRewards, ClaimRewardsBumps};
use crate::instructions::contribute_bet::{
    contribute_effect,
    contribute_outcome,
    contribute_refusal,
    ContributeBet,
    ContributeBetBumps,
};
use crate::instructions::fulfill_jackpot::{
    fulfill_effect,
    fulfill_outcome,
    fulfill_refusal,
    lemma_fulfillment_is_covered,
    FulfillJackpot,
};
use crate::instructions::update_config::{update_effect, update_refusal, UpdateConfig};
use crate::state::{Bet, Config, JackpotPool, RewardClaim, RewardVault, VrfRequest};

verus! {

/// The records that all calls share.
pub struct Shared {
    pub config: Config,
    pub pool: JackpotPool,
    pub reward_vault: RewardVault,
}

/// One call, with the records and inputs that are its own.
pub enum Call {
    Contribute {
        bet: Bet,
        vrf_request: VrfRequest,
        bet_key: Identity,
        player: Identity,
        bumps: ContributeBetBumps,
        now: i64,
        amount: u64,
    },
    Fulfill {
        bet: Bet,
        vrf_request: VrfRequest,
        bet_key: Identity,
        player: Identity,
        now: i64,
        vrf_result: [u8; 32],
    },
    Claim {
        reward_claim: RewardClaim,
        user: Identity,
        ledger_bumps: ClaimRewardsBumps,
        now: i64,
        vault_balance: u64,
    },
    Update {
        authority: Identity,
        jackpot_percentage: Option<u16>,
        house_percentage: Option<u16>,
        defi_percentage: Option<u16>,
        min_bet: Option<u64>,
        max_bet: Option<u64>,
        win_probability_bps: Option<u16>,
        reset_threshold: Option<u64>,
        milestone_bets: Option<u64>,
        apy_bps: Option<u16>,
    },
}

/// The shared records after one call.
pub open spec fn after(shared: Shared, call: Call) -> Shared {
    match call {
        Call::Contribute { bet, vrf_request, bet_key, player, bumps, now, amount } => {
            let ctx = ContributeBet {
                config: shared.config,
                pool: shared.pool,
                reward_vault: shared.reward_vault,
                bet,
                vrf_request,
                bet_key,
                player,
            };
            if contribute_refusal(ctx, amount) is None {
                let done = contribute_effect(ctx, bumps, now, amount);
                Shared { config: done.config, pool: done.pool, reward_vault: done.reward_vault }
            } else {
                shared
            }
        },
        Call::Fulfill { bet, vrf_request, bet_key, player, now, vrf_result } => {
            let ctx = FulfillJackpot {
                config: shared.config,
                pool: shared.pool,
                bet,
                vrf_request,
                bet_key,
                player,
            };
            if fulfill_refusal(ctx, now, vrf_result) is None {
                let done = fulfill_effect(ctx, now, vrf_result);
                Shared { config: done.config, pool: done.pool, ..shared }
            } else {
                shared
            }
        },
        Call::Claim { reward_claim, user, ledger_bumps, now, vault_balance } => {
            let ctx = ClaimRewards {
                config: shared.config,
                reward_vault: shared.reward_vault,
                reward_claim,
                user,
            };
            if claim_refusal(ctx, ledger_bumps, now, vault_balance) is None {
                let done = claim_effect(ctx, ledger_bumps, now);
                Shared { config: done.config, reward_vault: done.reward_vault, ..shared }
            } else {
                shared
            }
        },
        Call::Update {
            authority,
            jackpot_percentage,
            house_percentage,
            defi_percentage,
            min_bet,
            max_bet,
            win_probability_bps,
            reset_threshold,
            milestone_bets,
            apy_bps,
        } => {
            let ctx = UpdateConfig {
                config: shared.config,
                pool: shared.pool,
                reward_vault: shared.reward_vault,
                authority,
            };
            if update_refusal(
                ctx,
                jackpot_percentage,
                house_percentage,
                defi_percentage,
                min_bet,
                max_bet,
                win_probability_bps,
            ) is None {
                let done = update_effect(
                    ctx,
                    jackpot_percentage,
                    house_percentage,
                    defi_percentage,
                    min_bet,
                    max_bet,
                    win_probability_bps,
                    reset_threshold,
                    milestone_bets,
                    apy_bps,
                );
                Shared { config: done.config, pool: done.pool, reward_vault: done.reward_vault }
            } else {
                shared
            }
        },
    }
}

/// What one call credits to the pool: the jackpot share of an accepted stake.
pub open spec fn credited(shared: Shared, call: Call) -> int {
    match call {
        Call::Contribute { bet, vrf_request, bet_key, player, bumps, now, amount } => {
            let ctx = ContributeBet {
                config: shared.config,
                pool: shared.pool,
                reward_vault: shared.reward_vault,
                bet,
                vrf_request,
                bet_key,
                player,
            };
            if contribute_refusal(ctx, amount) is None {
                contribute_outcome(ctx, amount).distribution.jackpot_contribution as int
            } else {
                0
            }
        },
        _ => 0,
    }
}

/// What one call pays out of the pool: the win and the reset payout of a
/// fulfilment that went through.
pub open spec fn debited(shared: Shared, call: Call) -> int {
    match call {
        Call::Fulfill { bet, vrf_request, bet_key, player, now, vrf_result } => {
            let ctx = FulfillJackpot {
                config: shared.config,
                pool: shared.pool,
                bet,
                vrf_request,
                bet_key,
                player,
            };
            if fulfill_refusal(ctx, now, vrf_result) is None {
                fulfill_outcome(ctx, vrf_result).total_paid()
            } else {
                0
            }
        },
        _ => 0,
    }
}

/// The shared records after a sequence of calls.
pub open spec fn after_all(shared: Shared, calls: Seq<Call>) -> Shared
    decreases calls.len(),
{
    if calls.len() == 0 {
        shared
    } else {
        after(after_all(shared, calls.drop_last()), calls.last())
    }
}

/// Everything that a sequence of calls credits to the pool.
pub open spec fn total_credited(shared: Shared, calls: Seq<Call>) -> int
    decreases calls.len(),
{
    if calls.len() == 0 {
        0
    } else {
        total_credited(shared, calls.drop_last()) + credited(
            after_all(shared, calls.drop_last()),
            calls.last(),
        )
    }
}

/// Everything that a sequence of calls pays out of the pool.
pub open spec fn total_debited(shared: Shared, calls: Seq<Call>) -> int
    decreases calls.len(),
{
    if calls.len() == 0 {
        0
    } else {
        total_debited(shared, calls.drop_last()) + debited(
            after_all(shared, calls.drop_last()),
            calls.last(),
        )
    }
}

/// One call changes the pool balance by what it credits less what it pays,
/// and keeps a valid configuration valid and the reserve's stake from
/// shrinking.
pub proof fn lemma_one_call(shared: Shared, call: Call)
    ensures
        after(shared, call).pool.balance == shared.pool.balance + credited(shared, call) - debited(
            shared,
            call,
        ),
        0 <= credited(shared, call),
        0 <= debited(shared, call) <= shared.pool.balance,
        shared.config.wf() ==> after(shared, call).config.wf(),
        after(shared, call).reward_vault.staked_amount >= shared.reward_vault.staked_amount,
{
    match call {
        Call::Fulfill { bet, vrf_request, bet_key, player, now, vrf_result } => {
            let ctx = FulfillJackpot {
                config: shared.config,
                pool: shared.pool,
                bet,
                vrf_request,
                bet_key,
                player,
            };
            if fulfill_refusal(ctx, now, vrf_result) is None {
                lemma_fulfillment_is_covered(ctx, now, vrf_result);
            }
        },
        _ => {},
    }
}

/// The pool balance is never negative and always equals what it held at the
/// start, plus every jackpot share credited since, less every win and reset
/// payout made since. From an empty pool it is the credits less the debits.
pub proof fn lemma_pool_balance_is_credits_less_debits(shared: Shared, calls: Seq<Call>)
    ensures
        after_all(shared, calls).pool.balance == shared.pool.balance + total_credited(shared, calls)
            - total_debited(shared, calls),
        0 <= after_all(shared, calls).pool.balance,
        0 <= total_debited(shared, calls) <= shared.pool.balance + total_credited(shared, calls),
        0 <= total_credited(shared, calls),
    decreases calls.len(),
{
    if calls.len() > 0 {
        lemma_pool_balance_is_credits_less_debits(shared, calls.drop_last());
        lemma_one_call(after_all(shared, calls.drop_last()), calls.last());
    }
}

/// No sequence of calls makes a valid configuration invalid.
pub proof fn lemma_configuration_stays_valid(shared: Shared, calls: Seq<Call>)
    requires
        shared.config.wf(),
    ensures
        after_all(shared, calls).config.wf(),
    decreases calls.len(),
{
    if calls.len() > 0 {
        lemma_configuration_stays_valid(shared, calls.drop_last());
        lemma_one_call(after_all(shared, calls.drop_last()), calls.last());
    }
}

/// No sequence of calls shrinks what is staked in the reserve.
pub proof fn lemma_stake_never_shrinks(shared: Shared, calls: Seq<Call>)
    ensures
        after_all(shared, calls).reward_vault.staked_amount >= shared.reward_vault.staked_amount,
    decreases calls.len(),
{
    if calls.len() > 0 {
        lemma_stake_never_shrinks(shared, calls.drop_last());
        lemma_one_call(after_all(shared, calls.drop_last()), calls.last());
    }
}

} // verus!
