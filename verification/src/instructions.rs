//! The operations of the engine, one module each.

pub mod claim_rewards;
pub mod contribute_bet;
pub mod fulfill_jackpot;
pub mod initialize;
pub mod update_config;
pub mod withdraw_house;

pub use claim_rewards::{claim_rewards, ClaimRewards, ClaimRewardsBumps, RewardsClaimed};
pub use contribute_bet::{
    contribute_bet,
    BetContributed,
    ContributeBet,
    ContributeBetBumps,
    Contribution,
};
pub use fulfill_jackpot::{
    fulfill_jackpot,
    Fulfillment,
    FulfillJackpot,
    JackpotLoss,
    JackpotWon,
    Settlement,
};
pub use initialize::{initialize, Initialize, InitializeBumps};
pub use update_config::{update_config, ConfigUpdated, UpdateConfig};
pub use withdraw_house::{withdraw_house, HouseWithdrawal, WithdrawHouse};
