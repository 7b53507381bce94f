//! The named failure conditions of the wagering engine.

use vstd::prelude::*;

verus! {

/// Every way an operation can fail. A failed operation changes no record.
#[derive(Clone, Copy, Debug, PartialEq, Eq, Structural)]
pub enum CasinoError {
    BetTooSmall,
    BetTooLarge,
    EmptyPool,
    VrfRequestNotFound,
    VrfNotFulfilled,
    VrfAlreadyFulfilled,
    InvalidVrfAuthority,
    NoWin,
    InsufficientFunds,
    Unauthorized,
    InvalidConfig,
    DefiNotInitialized,
    NoRewardsAvailable,
    ClaimPeriodNotStarted,
    MathOverflow,
    VrfTimeout,
    InvalidWinThreshold,
    ResetThresholdNotMet,
}

impl CasinoError {
    /// The text shown to a caller for each condition.
    pub open spec fn message_text(self) -> Seq<char> {
        match self {
            CasinoError::BetTooSmall => "Invalid bet amount: below minimum"@,
            CasinoError::BetTooLarge => "Invalid bet amount: above maximum"@,
            CasinoError::EmptyPool => "Jackpot pool is empty"@,
            CasinoError::VrfRequestNotFound => "VRF request not found or expired"@,
            CasinoError::VrfNotFulfilled => "VRF request not fulfilled yet"@,
            CasinoError::VrfAlreadyFulfilled => "VRF request already fulfilled"@,
            CasinoError::InvalidVrfAuthority => "Invalid VRF authority"@,
            CasinoError::NoWin => "No win condition met"@,
            CasinoError::InsufficientFunds => "Insufficient funds for payout"@,
            CasinoError::Unauthorized => "Unauthorized: not house authority"@,
            CasinoError::InvalidConfig => "Invalid configuration parameters"@,
            CasinoError::DefiNotInitialized => "DeFi staking not initialized"@,
            CasinoError::NoRewardsAvailable => "No rewards available to claim"@,
            CasinoError::ClaimPeriodNotStarted => "Reward claim period not started"@,
            CasinoError::MathOverflow => "Math overflow in calculation"@,
            CasinoError::VrfTimeout => "VRF request timeout: refunding bet"@,
            CasinoError::InvalidWinThreshold => "Invalid win probability threshold"@,
            CasinoError::ResetThresholdNotMet => "Jackpot reset threshold not met"@,
        }
    }

    /// The message of this condition.
    pub fn message(&self) -> (text: &'static str)
        ensures
            text@ == self.message_text(),
    {
        match self {
            CasinoError::BetTooSmall => "Invalid bet amount: below minimum",
            CasinoError::BetTooLarge => "Invalid bet amount: above maximum",
            CasinoError::EmptyPool => "Jackpot pool is empty",
            CasinoError::VrfRequestNotFound => "VRF request not found or expired",
            CasinoError::VrfNotFulfilled => "VRF request not fulfilled yet",
            CasinoError::VrfAlreadyFulfilled => "VRF request already fulfilled",
            CasinoError::InvalidVrfAuthority => "Invalid VRF authority",
            CasinoError::NoWin => "No win condition met",
            CasinoError::InsufficientFunds => "Insufficient funds for payout",
            CasinoError::Unauthorized => "Unauthorized: not house authority",
            CasinoError::InvalidConfig => "Invalid configuration parameters",
            CasinoError::DefiNotInitialized => "DeFi staking not initialized",
            CasinoError::NoRewardsAvailable => "No rewards available to claim",
            CasinoError::ClaimPeriodNotStarted => "Reward claim period not started",
            CasinoError::MathOverflow => "Math overflow in calculation",
            CasinoError::VrfTimeout => "VRF request timeout: refunding bet",
            CasinoError::InvalidWinThreshold => "Invalid win probability threshold",
            CasinoError::ResetThresholdNotMet => "Jackpot reset threshold not met",
        }
    }
}

} // verus!
