use progressive_jackpot::error::CasinoError;
use progressive_jackpot::identity::Identity;
use progressive_jackpot::basis_points::BPS_DENOMINATOR;
use progressive_jackpot::state::{
    Bet, BetStatus, Config, JackpotPool, RewardClaim, RewardVault, VrfRequest, VrfStatus,
    DEFAULT_DISTRIBUTION_PERIOD, MAX_VRF_PROVIDER,
};

#[test]
fn identities_compare_byte_for_byte() {
    let mut bytes = [7u8; 32];
    let first = Identity::new(bytes);
    assert_eq!(first, Identity::new([7u8; 32]));
    bytes[31] = 8;
    assert_ne!(first, Identity::new(bytes));
    bytes[31] = 7;
    bytes[0] = 6;
    assert_ne!(first, Identity::new(bytes));
}

#[test]
fn identity_keeps_its_bytes() {
    let mut bytes = [0u8; 32];
    for (index, byte) in bytes.iter_mut().enumerate() {
        *byte = index as u8;
    }
    assert_eq!(Identity::new(bytes).to_bytes(), bytes);
}

#[test]
fn default_identity_is_all_zero() {
    assert_eq!(Identity::default().to_bytes(), [0u8; 32]);
    assert_eq!(Identity::default(), Identity::new([0u8; 32]));
}

#[test]
fn bet_status_codes() {
    assert_eq!(BetStatus::Pending.code(), 0);
    assert_eq!(BetStatus::Won.code(), 1);
    assert_eq!(BetStatus::Lost.code(), 2);
    assert_eq!(BetStatus::Refunded.code(), 3);
    for code in 0u8..=3 {
        assert_eq!(BetStatus::from_code(code).unwrap().code(), code);
    }
    assert_eq!(BetStatus::from_code(4), None);
    assert_eq!(BetStatus::from_code(255), None);
}

#[test]
fn vrf_status_codes() {
    assert_eq!(VrfStatus::Pending.code(), 0);
    assert_eq!(VrfStatus::Fulfilled.code(), 1);
    assert_eq!(VrfStatus::TimedOut.code(), 2);
    for code in 0u8..=2 {
        assert_eq!(VrfStatus::from_code(code).unwrap().code(), code);
    }
    assert_eq!(VrfStatus::from_code(3), None);
}

#[test]
fn fresh_records_are_empty() {
    let config = Config::default();
    assert_eq!(config.authority, Identity::default());
    assert_eq!(config.total_bets, 0);
    assert_eq!(config.orao_network, None);
    let pool = JackpotPool::default();
    assert_eq!(pool.balance, 0);
    assert_eq!(pool.last_winner, None);
    assert_eq!(pool.last_win_timestamp, None);
    let bet = Bet::default();
    assert_eq!(bet.status, BetStatus::Pending);
    assert_eq!(bet.vrf_request_id, None);
    assert_eq!(bet.win_amount, 0);
    let vault = RewardVault::default();
    assert_eq!(vault.staked_amount, 0);
    assert_eq!(vault.apy_bps, 0);
    let claim = RewardClaim::default();
    assert_eq!(claim.user, Identity::default());
    assert_eq!(claim.total_earned, 0);
    let request = VrfRequest::default();
    assert_eq!(request.status, VrfStatus::Pending);
    assert_eq!(request.request_id, [0u8; 32]);
    assert_eq!(request.result, None);
}

#[test]
fn constants() {
    assert_eq!(BPS_DENOMINATOR, 10_000);
    assert_eq!(MAX_VRF_PROVIDER, 1);
    assert_eq!(DEFAULT_DISTRIBUTION_PERIOD, 86_400);
}

#[test]
fn error_messages() {
    assert_eq!(CasinoError::BetTooSmall.message(), "Invalid bet amount: below minimum");
    assert_eq!(CasinoError::BetTooLarge.message(), "Invalid bet amount: above maximum");
    assert_eq!(CasinoError::EmptyPool.message(), "Jackpot pool is empty");
    assert_eq!(CasinoError::VrfRequestNotFound.message(), "VRF request not found or expired");
    assert_eq!(CasinoError::VrfNotFulfilled.message(), "VRF request not fulfilled yet");
    assert_eq!(CasinoError::VrfAlreadyFulfilled.message(), "VRF request already fulfilled");
    assert_eq!(CasinoError::InvalidVrfAuthority.message(), "Invalid VRF authority");
    assert_eq!(CasinoError::NoWin.message(), "No win condition met");
    assert_eq!(CasinoError::InsufficientFunds.message(), "Insufficient funds for payout");
    assert_eq!(CasinoError::Unauthorized.message(), "Unauthorized: not house authority");
    assert_eq!(CasinoError::InvalidConfig.message(), "Invalid configuration parameters");
    assert_eq!(CasinoError::DefiNotInitialized.message(), "DeFi staking not initialized");
    assert_eq!(CasinoError::NoRewardsAvailable.message(), "No rewards available to claim");
    assert_eq!(CasinoError::ClaimPeriodNotStarted.message(), "Reward claim period not started");
    assert_eq!(CasinoError::MathOverflow.message(), "Math overflow in calculation");
    assert_eq!(CasinoError::VrfTimeout.message(), "VRF request timeout: refunding bet");
    assert_eq!(CasinoError::InvalidWinThreshold.message(), "Invalid win probability threshold");
    assert_eq!(CasinoError::ResetThresholdNotMet.message(), "Jackpot reset threshold not met");
}

#[test]
fn identity_agrees_with_the_host_key_on_default() {
    let key = anchor_lang::prelude::Pubkey::default();
    assert_eq!(Identity::default().to_bytes(), key.to_bytes());
    assert_eq!(Identity::new(key.to_bytes()), Identity::default());
}

#[test]
fn identity_agrees_with_the_host_key_on_equality() {
    let mut samples: Vec<[u8; 32]> = vec![[0u8; 32], [1u8; 32], [255u8; 32]];
    for position in [0usize, 7, 8, 15, 16, 30, 31] {
        let mut bytes = [0u8; 32];
        bytes[position] = 1;
        samples.push(bytes);
    }
    for first in samples.iter() {
        for second in samples.iter() {
            let keys_equal = anchor_lang::prelude::Pubkey::new_from_array(*first)
                == anchor_lang::prelude::Pubkey::new_from_array(*second);
            assert_eq!(Identity::new(*first) == Identity::new(*second), keys_equal);
        }
    }
}

#[test]
fn identity_round_trips_through_the_host_key() {
    let mut bytes = [0u8; 32];
    for (index, byte) in bytes.iter_mut().enumerate() {
        *byte = (index as u8).wrapping_mul(37).wrapping_add(11);
    }
    let key = anchor_lang::prelude::Pubkey::new_from_array(bytes);
    let identity = Identity::new(key.to_bytes());
    assert_eq!(anchor_lang::prelude::Pubkey::new_from_array(identity.to_bytes()), key);
}
