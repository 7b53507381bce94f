//! Claiming: a claimant collects what the yield reserve has accrued since
//! their last claim.

use vstd::prelude::*;
use crate::error::CasinoError;
use crate::identity::{lemma_default_identity_is_unique, Identity};
use crate::state::{Config, RewardClaim, RewardVault};
use crate::yield_accrual::{accrued_reward, reward_of, reward_overflows};

verus! {

/// The records that one claim works on, and who claims.
#[derive(Clone, Copy, Debug, PartialEq, Eq)]
pub struct ClaimRewards {
    pub config: Config,
    pub reward_vault: RewardVault,
    /// The claimant's ledger; unused while its `user` is the default identity.
    pub reward_claim: RewardClaim,
    /// Who claims.
    pub user: Identity,
}

/// The address seed of the ledger that a first claim opens.
#[derive(Clone, Copy, Debug, PartialEq, Eq, Structural)]
pub struct ClaimRewardsBumps {
    pub reward_claim: u8,
}

/// Reported when a claim is paid.
#[derive(Clone, Copy, Debug, PartialEq, Eq)]
pub struct RewardsClaimed {
    pub user: Identity,
    /// What this claim paid.
    pub amount: u64,
    /// What the claimant has claimed in all.
    pub total_claimed: u64,
}

/// The ledger that a claim at `now` works with: an unused ledger is opened for
/// the claimant, with nothing earned and its last claim set to `now`.
pub open spec fn opened_ledger(ctx: ClaimRewards, bumps: ClaimRewardsBumps, now: i64) -> RewardClaim {
    if ctx.reward_claim.user.is_default() {
        RewardClaim {
            user: ctx.user,
            total_earned: 0,
            total_claimed: 0,
            last_claim: now,
            bump: bumps.reward_claim,
        }
    } else {
        ctx.reward_claim
    }
}

/// The seconds that a claim at `now` is paid for, after a last claim at
/// `last_claim`: their difference where that is positive and fits 64 bits,
/// else none.
pub open spec fn claimable_seconds(last_claim: i64, now: i64) -> int {
    if 0 < now - last_claim <= i64::MAX {
        now - last_claim
    } else {
        0
    }
}

/// The reward that a claim at `now` is about.
pub open spec fn claim_reward(ctx: ClaimRewards, bumps: ClaimRewardsBumps, now: i64) -> int {
    reward_of(
        ctx.reward_vault.staked_amount as int,
        ctx.config.defi_percentage as int,
        ctx.reward_vault.apy_bps as int,
        claimable_seconds(opened_ledger(ctx, bumps, now).last_claim, now),
    )
}

/// Why a claim is refused, or `None` where it is paid.
///
/// The reserve must hold a stake; time must have passed since the last claim;
/// the reward must be computable, positive and covered by the funds that the
/// host holds for the reserve; and no total may exceed 64 bits by it.
pub open spec fn claim_refusal(
    ctx: ClaimRewards,
    bumps: ClaimRewardsBumps,
    now: i64,
    vault_balance: u64,
) -> Option<CasinoError> {
    let ledger = opened_ledger(ctx, bumps, now);
    let elapsed = claimable_seconds(ledger.last_claim, now);
    let reward = claim_reward(ctx, bumps, now);
    if ctx.reward_vault.staked_amount == 0 {
        Some(CasinoError::DefiNotInitialized)
    } else if elapsed == 0 {
        Some(CasinoError::ClaimPeriodNotStarted)
    } else if reward_overflows(
        ctx.reward_vault.staked_amount,
        ctx.config.defi_percentage,
        ctx.reward_vault.apy_bps,
        elapsed as u64,
    ) {
        Some(CasinoError::MathOverflow)
    } else if reward == 0 {
        Some(CasinoError::NoRewardsAvailable)
    } else if vault_balance < reward {
        Some(CasinoError::InsufficientFunds)
    } else if ledger.total_earned + reward > u64::MAX || ledger.total_claimed + reward > u64::MAX
        || ctx.reward_vault.total_rewards_distributed + reward > u64::MAX {
        Some(CasinoError::MathOverflow)
    } else {
        None
    }
}

/// The records after a claim that is paid.
pub open spec fn claim_effect(ctx: ClaimRewards, bumps: ClaimRewardsBumps, now: i64) -> ClaimRewards {
    let ledger = opened_ledger(ctx, bumps, now);
    let reward = claim_reward(ctx, bumps, now);
    ClaimRewards {
        reward_vault: RewardVault {
            total_rewards_distributed: (ctx.reward_vault.total_rewards_distributed + reward) as u64,
            last_distribution: now,
            ..ctx.reward_vault
        },
        reward_claim: RewardClaim {
            total_earned: (ledger.total_earned + reward) as u64,
            total_claimed: (ledger.total_claimed + reward) as u64,
            last_claim: now,
            ..ledger
        },
        ..ctx
    }
}

/// What a claim that is paid reports; the host moves `amount` from the reserve
/// to the claimant.
pub open spec fn claim_outcome(ctx: ClaimRewards, bumps: ClaimRewardsBumps, now: i64) -> RewardsClaimed {
    let ledger = opened_ledger(ctx, bumps, now);
    let reward = claim_reward(ctx, bumps, now);
    RewardsClaimed {
        user: ctx.user,
        amount: reward as u64,
        total_claimed: (ledger.total_claimed + reward) as u64,
    }
}

/// Pays the claimant what the reserve has accrued since their last claim.
/// `vault_balance` is what the host holds for the reserve.
///
/// Refused, with every record left as it was, for the reasons that
/// [`claim_refusal`] lists. Every claimant is paid against the whole reserve.
/// Since an unused ledger counts as last claimed at `now`, a claim on one is
/// always refused: no time has passed on it.
pub fn claim_rewards(ctx: &mut ClaimRewards, bumps: ClaimRewardsBumps, now: i64, vault_balance: u64) -> (r:
    Result<RewardsClaimed, CasinoError>)
    ensures
        match r {
            Ok(event) => {
                &&& claim_refusal(*old(ctx), bumps, now, vault_balance) is None
                &&& *final(ctx) == claim_effect(*old(ctx), bumps, now)
                &&& event == claim_outcome(*old(ctx), bumps, now)
                &&& 0 < event.amount <= vault_balance
                &&& event.amount == reward_of(
                    old(ctx).reward_vault.staked_amount as int,
                    old(ctx).config.defi_percentage as int,
                    old(ctx).reward_vault.apy_bps as int,
                    now - old(ctx).reward_claim.last_claim,
                )
            },
            Err(e) => {
                &&& claim_refusal(*old(ctx), bumps, now, vault_balance) == Some(e)
                &&& *final(ctx) == *old(ctx)
            },
        },
        old(ctx).reward_vault.staked_amount == 0 ==> r == Err::<RewardsClaimed, CasinoError>(
            CasinoError::DefiNotInitialized,
        ),
        old(ctx).reward_vault.staked_amount > 0 && old(ctx).reward_claim.user.is_default() ==> r
            == Err::<RewardsClaimed, CasinoError>(CasinoError::ClaimPeriodNotStarted),
        r is Ok && old(ctx).reward_claim.wf() ==> final(ctx).reward_claim.wf(),
{
    if ctx.reward_vault.staked_amount == 0 {
        return Err(CasinoError::DefiNotInitialized);
    }
    let unused = Identity::default();
    proof {
        if ctx.reward_claim.user.is_default() {
            lemma_default_identity_is_unique(ctx.reward_claim.user, unused);
        }
    }
    let ledger = if ctx.reward_claim.user == unused {
        RewardClaim {
            user: ctx.user,
            total_earned: 0,
            total_claimed: 0,
            last_claim: now,
            bump: bumps.reward_claim,
        }
    } else {
        ctx.reward_claim
    };
    let elapsed: u64 = match now.checked_sub(ledger.last_claim) {
        Some(seconds) => if seconds > 0 {
            seconds as u64
        } else {
            0
        },
        None => 0,
    };
    if elapsed == 0 {
        return Err(CasinoError::ClaimPeriodNotStarted);
    }
    let reward = match accrued_reward(
        ctx.reward_vault.staked_amount,
        ctx.config.defi_percentage,
        ctx.reward_vault.apy_bps,
        elapsed,
    ) {
        Ok(reward) => reward,
        Err(e) => { return Err(e); },
    };
    if reward == 0 {
        return Err(CasinoError::NoRewardsAvailable);
    }
    if vault_balance < reward {
        return Err(CasinoError::InsufficientFunds);
    }
    let total_earned = match ledger.total_earned.checked_add(reward) {
        Some(total) => total,
        None => { return Err(CasinoError::MathOverflow); },
    };
    let total_claimed = match ledger.total_claimed.checked_add(reward) {
        Some(total) => total,
        None => { return Err(CasinoError::MathOverflow); },
    };
    let total_rewards_distributed = match ctx.reward_vault.total_rewards_distributed.checked_add(
        reward,
    ) {
        Some(total) => total,
        None => { return Err(CasinoError::MathOverflow); },
    };

    ctx.reward_claim = RewardClaim { total_earned, total_claimed, last_claim: now, ..ledger };
    ctx.reward_vault.total_rewards_distributed = total_rewards_distributed;
    ctx.reward_vault.last_distribution = now;
    Ok(RewardsClaimed { user: ctx.user, amount: reward, total_claimed })
}

} // verus!
