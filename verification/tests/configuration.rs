use progressive_jackpot::error::CasinoError;
use progressive_jackpot::identity::Identity;
use progressive_jackpot::instructions::{
    initialize, update_config, withdraw_house, ConfigUpdated, HouseWithdrawal, Initialize,
    InitializeBumps, UpdateConfig, WithdrawHouse,
};
use progressive_jackpot::state::{Config, JackpotPool, RewardVault};

const START: i64 = 1_650_000_000;
const SEEDS: InitializeBumps = InitializeBumps { config: 255, pool: 254, reward_vault: 253 };

fn house() -> Identity {
    Identity::new([9u8; 32])
}

fn stranger() -> Identity {
    Identity::new([8u8; 32])
}

fn blank() -> Initialize {
    Initialize {
        config: Config::default(),
        pool: JackpotPool::default(),
        reward_vault: RewardVault::default(),
        authority: house(),
    }
}

fn set_up(
    ctx: &mut Initialize,
    percentages: (u16, u16, u16),
    bounds: (u64, u64),
    win_probability_bps: u16,
    vrf_provider: u8,
) -> Result<(), CasinoError> {
    initialize(
        ctx,
        SEEDS,
        START,
        percentages.0,
        percentages.1,
        percentages.2,
        bounds.0,
        bounds.1,
        win_probability_bps,
        vrf_provider,
        Some(Identity::new([3u8; 32])),
        None,
        50_000,
        7,
        500,
    )
}

fn running() -> UpdateConfig {
    let mut ctx = blank();
    set_up(&mut ctx, (500, 200, 100), (10, 1_000), 1000, 0).unwrap();
    UpdateConfig {
        config: ctx.config,
        pool: ctx.pool,
        reward_vault: ctx.reward_vault,
        authority: house(),
    }
}

#[test]
fn initialisation_writes_the_three_records() {
    let mut ctx = blank();
    assert_eq!(set_up(&mut ctx, (500, 200, 100), (10, 1_000), 1000, 1), Ok(()));
    assert_eq!(
        ctx.config,
        Config {
            authority: house(),
            jackpot_percentage: 500,
            house_percentage: 200,
            defi_percentage: 100,
            min_bet: 10,
            max_bet: 1_000,
            win_probability_bps: 1000,
            vrf_provider: 1,
            orao_network: Some(Identity::new([3u8; 32])),
            switchboard_queue: None,
            defi_vault_bump: 253,
            total_bets: 0,
            total_wins: 0,
            bump: 255,
        }
    );
    assert_eq!(
        ctx.pool,
        JackpotPool {
            balance: 0,
            last_winner: None,
            last_win_timestamp: None,
            reset_threshold: 50_000,
            bets_since_win: 0,
            milestone_bets: 7,
            bump: 254,
        }
    );
    assert_eq!(
        ctx.reward_vault,
        RewardVault {
            staked_amount: 0,
            total_rewards_distributed: 0,
            last_distribution: START,
            distribution_period: 86_400,
            apy_bps: 500,
            bump: 253,
        }
    );
    assert_eq!(ctx.authority, house());
}

#[test]
fn initialisation_accepts_the_limits() {
    let mut ctx = blank();
    assert_eq!(set_up(&mut ctx, (10_000, 0, 0), (1, 1), 10_000, 1), Ok(()));
    let mut ctx = blank();
    assert_eq!(set_up(&mut ctx, (0, 0, 0), (1, u64::MAX), 1, 0), Ok(()));
}

#[test]
fn initialisation_rejects_percentages_above_the_whole() {
    let mut ctx = blank();
    let before = ctx;
    assert_eq!(
        set_up(&mut ctx, (5_000, 3_000, 2_001), (10, 1_000), 1000, 0),
        Err(CasinoError::InvalidConfig)
    );
    assert_eq!(ctx, before);
}

#[test]
fn initialisation_reports_a_sum_beyond_sixteen_bits() {
    let mut ctx = blank();
    let before = ctx;
    assert_eq!(
        set_up(&mut ctx, (60_000, 5_000, 536), (10, 1_000), 1000, 0),
        Err(CasinoError::MathOverflow)
    );
    assert_eq!(
        set_up(&mut ctx, (60_000, 6_000, 0), (10, 1_000), 1000, 0),
        Err(CasinoError::MathOverflow)
    );
    assert_eq!(
        set_up(&mut ctx, (60_000, 5_000, 535), (10, 1_000), 1000, 0),
        Err(CasinoError::InvalidConfig)
    );
    assert_eq!(ctx, before);
}

#[test]
fn initialisation_rejects_bad_bet_bounds() {
    let mut ctx = blank();
    let before = ctx;
    assert_eq!(
        set_up(&mut ctx, (500, 200, 100), (0, 1_000), 1000, 0),
        Err(CasinoError::InvalidConfig)
    );
    assert_eq!(
        set_up(&mut ctx, (500, 200, 100), (11, 10), 1000, 0),
        Err(CasinoError::InvalidConfig)
    );
    assert_eq!(ctx, before);
}

#[test]
fn initialisation_rejects_a_bad_win_probability() {
    let mut ctx = blank();
    let before = ctx;
    assert_eq!(
        set_up(&mut ctx, (500, 200, 100), (10, 1_000), 0, 0),
        Err(CasinoError::InvalidConfig)
    );
    assert_eq!(
        set_up(&mut ctx, (500, 200, 100), (10, 1_000), 10_001, 0),
        Err(CasinoError::InvalidConfig)
    );
    assert_eq!(ctx, before);
}

#[test]
fn initialisation_rejects_an_unknown_oracle() {
    let mut ctx = blank();
    let before = ctx;
    assert_eq!(
        set_up(&mut ctx, (500, 200, 100), (10, 1_000), 1000, 2),
        Err(CasinoError::InvalidConfig)
    );
    assert_eq!(ctx, before);
}

#[test]
fn update_changes_only_what_is_supplied() {
    let mut ctx = running();
    let before = ctx;
    let event = update_config(
        &mut ctx,
        Some(600),
        None,
        None,
        None,
        Some(5_000),
        None,
        Some(77),
        None,
        Some(450),
    );
    assert_eq!(event, Ok(ConfigUpdated { authority: house() }));
    assert_eq!(ctx.config.jackpot_percentage, 600);
    assert_eq!(ctx.config.house_percentage, 200);
    assert_eq!(ctx.config.defi_percentage, 100);
    assert_eq!(ctx.config.min_bet, 10);
    assert_eq!(ctx.config.max_bet, 5_000);
    assert_eq!(ctx.config.win_probability_bps, 1000);
    assert_eq!(ctx.pool.reset_threshold, 77);
    assert_eq!(ctx.pool.milestone_bets, 7);
    assert_eq!(ctx.reward_vault.apy_bps, 450);
    assert_eq!(ctx.config.authority, before.config.authority);
    assert_eq!(ctx.config.total_bets, before.config.total_bets);
    assert_eq!(ctx.pool.balance, before.pool.balance);
}

#[test]
fn update_with_nothing_supplied_changes_nothing() {
    let mut ctx = running();
    let before = ctx;
    assert!(update_config(&mut ctx, None, None, None, None, None, None, None, None, None).is_ok());
    assert_eq!(ctx, before);
}

#[test]
fn update_by_a_stranger_is_refused() {
    let mut ctx = running();
    ctx.authority = stranger();
    let before = ctx;
    assert_eq!(
        update_config(&mut ctx, Some(1), None, None, None, None, None, None, None, None),
        Err(CasinoError::Unauthorized)
    );
    assert_eq!(ctx, before);
}

#[test]
fn update_rejects_merged_percentages_above_the_whole() {
    let mut ctx = running();
    let before = ctx;
    // 9701 + 200 + 100 = 10001
    assert_eq!(
        update_config(&mut ctx, Some(9_701), None, None, None, None, None, Some(1), Some(1), Some(1)),
        Err(CasinoError::InvalidConfig)
    );
    assert_eq!(ctx, before);
    assert_eq!(
        update_config(&mut ctx, None, Some(4_000), Some(5_501), Some(1), Some(2), Some(3), None, None, None),
        Err(CasinoError::InvalidConfig)
    );
    assert_eq!(ctx, before);
    // 9700 + 200 + 100 = 10000 is accepted.
    assert!(update_config(&mut ctx, Some(9_700), None, None, None, None, None, None, None, None).is_ok());
}

#[test]
fn update_reports_a_sum_beyond_sixteen_bits() {
    let mut ctx = running();
    let before = ctx;
    assert_eq!(
        update_config(&mut ctx, Some(65_535), None, None, None, None, None, None, None, None),
        Err(CasinoError::MathOverflow)
    );
    assert_eq!(ctx, before);
}

#[test]
fn update_rejects_bad_bet_bounds() {
    let mut ctx = running();
    let before = ctx;
    assert_eq!(
        update_config(&mut ctx, None, None, None, Some(0), None, None, None, None, None),
        Err(CasinoError::InvalidConfig)
    );
    assert_eq!(
        update_config(&mut ctx, None, None, None, None, Some(9), None, None, None, None),
        Err(CasinoError::InvalidConfig)
    );
    assert_eq!(
        update_config(&mut ctx, None, None, None, Some(50), Some(49), None, None, None, None),
        Err(CasinoError::InvalidConfig)
    );
    // A new minimum is held against the stored maximum.
    assert_eq!(
        update_config(&mut ctx, None, None, None, Some(1_001), None, None, None, None, None),
        Err(CasinoError::InvalidConfig)
    );
    assert_eq!(ctx, before);
    assert!(update_config(&mut ctx, None, None, None, Some(1_000), None, None, None, None, None).is_ok());
    assert_eq!(ctx.config.min_bet, 1_000);
}

#[test]
fn update_rejects_a_bad_win_probability() {
    let mut ctx = running();
    let before = ctx;
    assert_eq!(
        update_config(&mut ctx, None, None, None, None, None, Some(0), None, None, None),
        Err(CasinoError::InvalidConfig)
    );
    assert_eq!(
        update_config(&mut ctx, None, None, None, None, None, Some(10_001), None, None, None),
        Err(CasinoError::InvalidConfig)
    );
    assert_eq!(ctx, before);
    assert!(update_config(&mut ctx, None, None, None, None, None, Some(10_000), None, None, None).is_ok());
    assert_eq!(ctx.config.win_probability_bps, 10_000);
}

#[test]
fn withdrawal_by_the_authority() {
    let ctx = WithdrawHouse { config: running().config, authority: house() };
    assert_eq!(
        withdraw_house(&ctx, 5_000, 5_000),
        Ok(HouseWithdrawal { authority: house(), amount: 5_000 })
    );
    assert_eq!(
        withdraw_house(&ctx, 5_000, 0),
        Ok(HouseWithdrawal { authority: house(), amount: 0 })
    );
}

#[test]
fn withdrawal_beyond_the_vault_is_refused() {
    let ctx = WithdrawHouse { config: running().config, authority: house() };
    assert_eq!(withdraw_house(&ctx, 5_000, 5_001), Err(CasinoError::InsufficientFunds));
}

#[test]
fn withdrawal_by_a_stranger_is_refused() {
    let ctx = WithdrawHouse { config: running().config, authority: stranger() };
    assert_eq!(withdraw_house(&ctx, 5_000, 1), Err(CasinoError::Unauthorized));
    // Authorisation is checked before the funds.
    assert_eq!(withdraw_house(&ctx, 0, 1), Err(CasinoError::Unauthorized));
}
