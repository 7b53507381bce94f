//! A progressive-jackpot wagering engine.
//!
//! Players stake; each stake is split among a growing jackpot pool, a house
//! fee and a yield-bearing reserve; a random value delivered later decides
//! whether the stake wins and what the pool pays; and the yield accrued on the
//! reserve can be claimed over time.
//!
//! The engine holds no funds and reads no clock. Each operation takes the
//! records it works on, the caller's identity, the current time and the
//! balances that the host holds, and returns what the host is to move and
//! report. An operation either goes through or is refused; a refused operation
//! leaves every record as it was.
//!
//! Every function is verified against its contract: the arithmetic never
//! overflows unnoticed, each refusal is returned on exactly the inputs that
//! its contract names, and the state after an operation is the one that the
//! operation's `*_effect` function describes.

pub mod basis_points;
pub mod distribution;
pub mod error;
pub mod history;
pub mod identity;
pub mod instructions;
pub mod randomness;
pub mod state;
pub mod win_determination;
pub mod yield_accrual;

pub use error::CasinoError;
pub use identity::Identity;
pub use instructions::{
    claim_rewards,
    contribute_bet,
    fulfill_jackpot,
    initialize,
    update_config,
    withdraw_house,
};
