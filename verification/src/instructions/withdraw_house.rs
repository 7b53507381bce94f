//! Withdrawal: the authority takes accumulated fees out of the house vault.

use vstd::prelude::*;
use crate::error::CasinoError;
use crate::identity::Identity;
use crate::state::Config;

verus! {

/// The record that a withdrawal reads, and who asks for it.
#[derive(Clone, Copy, Debug, PartialEq, Eq)]
pub struct WithdrawHouse {
    pub config: Config,
    /// The caller.
    pub authority: Identity,
}

/// Reported when fees were withdrawn.
#[derive(Clone, Copy, Debug, PartialEq, Eq)]
pub struct HouseWithdrawal {
    pub authority: Identity,
    pub amount: u64,
}

/// Why a withdrawal is refused, or `None` where it is granted: the caller must
/// be the authority, and the vault must hold the amount.
pub open spec fn withdraw_refusal(ctx: WithdrawHouse, vault_balance: u64, amount: u64) -> Option<
    CasinoError,
> {
    if ctx.authority != ctx.config.authority {
        Some(CasinoError::Unauthorized)
    } else if vault_balance < amount {
        Some(CasinoError::InsufficientFunds)
    } else {
        None
    }
}

/// Grants or refuses a withdrawal of `amount` from the house vault, which the
/// host holds and which stands at `vault_balance`. Where it is granted, the
/// host moves `amount` from the vault to the authority.
pub fn withdraw_house(ctx: &WithdrawHouse, vault_balance: u64, amount: u64) -> (r: Result<
    HouseWithdrawal,
    CasinoError,
>)
    ensures
        match r {
            Ok(event) => {
                &&& withdraw_refusal(*ctx, vault_balance, amount) is None
                &&& event == (HouseWithdrawal { authority: ctx.authority, amount })
            },
            Err(e) => withdraw_refusal(*ctx, vault_balance, amount) == Some(e),
        },
{
    if ctx.authority != ctx.config.authority {
        return Err(CasinoError::Unauthorized);
    }
    if vault_balance < amount {
        return Err(CasinoError::InsufficientFunds);
    }
    Ok(HouseWithdrawal { authority: ctx.authority, amount })
}

} // verus!
