use progressive_jackpot::error::CasinoError;
use progressive_jackpot::win_determination::{
    classify_roll, determine_win, leading_u64, reset_payout, WinDecision, WinTier,
};

fn value_with_leading(number: u64) -> [u8; 32] {
    let mut value = [0u8; 32];
    value[..8].copy_from_slice(&number.to_le_bytes());
    value
}

#[test]
fn leading_number_is_little_endian() {
    let mut value = [0u8; 32];
    value[0] = 0x01;
    value[1] = 0x02;
    assert_eq!(leading_u64(&value), 0x0201);
    value[7] = 0x80;
    assert_eq!(leading_u64(&value), 0x8000_0000_0000_0201);
}

#[test]
fn leading_number_ignores_the_other_bytes() {
    let mut value = value_with_leading(77);
    for byte in value[8..].iter_mut() {
        *byte = 0xff;
    }
    assert_eq!(leading_u64(&value), 77);
}

#[test]
fn leading_number_agrees_with_std() {
    for number in [0u64, 1, 255, 256, 65_535, 9_999, 10_000, u64::MAX, 0x0123_4567_89ab_cdef] {
        assert_eq!(leading_u64(&value_with_leading(number)), number);
    }
}

#[test]
fn tiers_at_ten_percent() {
    assert_eq!(classify_roll(50, 1000), Some(WinTier::Rare));
    assert_eq!(classify_roll(400, 1000), Some(WinTier::Medium));
    assert_eq!(classify_roll(900, 1000), Some(WinTier::Common));
    assert_eq!(classify_roll(1500, 1000), None);
    assert_eq!(WinTier::Rare.multiplier(), 10_000);
    assert_eq!(WinTier::Medium.multiplier(), 5_000);
    assert_eq!(WinTier::Common.multiplier(), 2_500);
}

#[test]
fn tier_boundaries() {
    assert_eq!(classify_roll(99, 1000), Some(WinTier::Rare));
    assert_eq!(classify_roll(100, 1000), Some(WinTier::Medium));
    assert_eq!(classify_roll(499, 1000), Some(WinTier::Medium));
    assert_eq!(classify_roll(500, 1000), Some(WinTier::Common));
    assert_eq!(classify_roll(999, 1000), Some(WinTier::Common));
    assert_eq!(classify_roll(1000, 1000), None);
}

#[test]
fn smallest_probability_wins_only_on_zero() {
    // With a probability of 1 both tier bounds round down to 0.
    assert_eq!(classify_roll(0, 1), Some(WinTier::Common));
    assert_eq!(classify_roll(1, 1), None);
}

#[test]
fn certain_win_covers_every_roll() {
    assert_eq!(classify_roll(0, 10_000), Some(WinTier::Rare));
    assert_eq!(classify_roll(999, 10_000), Some(WinTier::Rare));
    assert_eq!(classify_roll(1_000, 10_000), Some(WinTier::Medium));
    assert_eq!(classify_roll(4_999, 10_000), Some(WinTier::Medium));
    assert_eq!(classify_roll(5_000, 10_000), Some(WinTier::Common));
    assert_eq!(classify_roll(9_999, 10_000), Some(WinTier::Common));
}

#[test]
fn decision_pays_by_tier() {
    assert_eq!(
        determine_win(&value_with_leading(50), 1000, 1_000_001),
        Ok(WinDecision { roll: 50, tier: Some(WinTier::Rare), payout: 1_000_001 })
    );
    assert_eq!(
        determine_win(&value_with_leading(400), 1000, 1_000_001),
        Ok(WinDecision { roll: 400, tier: Some(WinTier::Medium), payout: 500_000 })
    );
    assert_eq!(
        determine_win(&value_with_leading(900), 1000, 1_000_001),
        Ok(WinDecision { roll: 900, tier: Some(WinTier::Common), payout: 250_000 })
    );
    assert_eq!(
        determine_win(&value_with_leading(1500), 1000, 1_000_001),
        Ok(WinDecision { roll: 1500, tier: None, payout: 0 })
    );
}

#[test]
fn roll_is_taken_modulo_ten_thousand() {
    assert_eq!(
        determine_win(&value_with_leading(1_230_050), 1000, 800),
        Ok(WinDecision { roll: 50, tier: Some(WinTier::Rare), payout: 800 })
    );
    let decision = determine_win(&value_with_leading(u64::MAX), 1000, 800).unwrap();
    assert_eq!(decision.roll, u64::MAX % 10_000);
}

#[test]
fn decision_is_repeatable() {
    let value = value_with_leading(0xdead_beef_0042);
    let first = determine_win(&value, 2_500, 777_777);
    for _ in 0..5 {
        assert_eq!(determine_win(&value, 2_500, 777_777), first);
    }
}

#[test]
fn win_on_an_empty_pool_pays_nothing() {
    assert_eq!(
        determine_win(&value_with_leading(0), 1000, 0),
        Ok(WinDecision { roll: 0, tier: Some(WinTier::Rare), payout: 0 })
    );
}

#[test]
fn win_too_large_to_compute_is_refused() {
    assert_eq!(
        determine_win(&value_with_leading(50), 1000, u64::MAX),
        Err(CasinoError::MathOverflow)
    );
    // A loss on the same pool computes nothing and goes through.
    assert_eq!(
        determine_win(&value_with_leading(5_000), 1000, u64::MAX),
        Ok(WinDecision { roll: 5_000, tier: None, payout: 0 })
    );
}

#[test]
fn reset_pays_half_the_threshold() {
    assert_eq!(reset_payout(1_000, 1_000), Some(500));
    assert_eq!(reset_payout(5_000, 1_001), Some(500));
    assert_eq!(reset_payout(999, 1_000), None);
}

#[test]
fn reset_is_disabled_by_a_zero_threshold() {
    assert_eq!(reset_payout(0, 0), None);
    assert_eq!(reset_payout(u64::MAX, 0), None);
}

#[test]
fn reset_with_threshold_one_pays_nothing() {
    assert_eq!(reset_payout(1, 1), Some(0));
}
