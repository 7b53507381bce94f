//! Deciding from a delivered random value whether a stake wins, in which tier,
//! and what the pool pays.

use vstd::prelude::*;
use crate::basis_points::{checked_portion, lemma_portion_within_amount, portion};
use crate::error::CasinoError;

verus! {

/// Rolls range over `0..ROLL_MODULUS`.
pub const ROLL_MODULUS: u64 = 10000;

/// The unsigned 64-bit number that the first eight bytes spell, least significant byte first.
pub open spec fn le_u64(bytes: Seq<u8>) -> int
    recommends
        bytes.len() >= 8,
{
    bytes[0] + 256 * bytes[1] + 65536 * bytes[2] + 16777216 * bytes[3] + 4294967296 * bytes[4]
        + 1099511627776 * bytes[5] + 281474976710656 * bytes[6] + 72057594037927936 * bytes[7]
}

/// The roll that a random value stands for: its leading number modulo 10000.
pub open spec fn roll_of(random: Seq<u8>) -> int
    recommends
        random.len() >= 8,
{
    le_u64(random) % 10000
}

/// Reads the leading little-endian number of a random value.
pub fn leading_u64(random: &[u8; 32]) -> (value: u64)
    ensures
        value == le_u64(random@),
{
    let b0: u64 = random[0] as u64;
    let b1: u64 = random[1] as u64;
    let b2: u64 = random[2] as u64;
    let b3: u64 = random[3] as u64;
    let b4: u64 = random[4] as u64;
    let b5: u64 = random[5] as u64;
    let b6: u64 = random[6] as u64;
    let b7: u64 = random[7] as u64;
    b0 + 256 * b1 + 65536 * b2 + 16777216 * b3 + 4294967296 * b4 + 1099511627776 * b5
        + 281474976710656 * b6 + 72057594037927936 * b7
}

/// How much of the pool a win pays.
#[derive(Clone, Copy, Debug, PartialEq, Eq, Structural)]
pub enum WinTier {
    /// The whole pool.
    Rare,
    /// Half of the pool.
    Medium,
    /// A quarter of the pool.
    Common,
}

impl WinTier {
    /// The tier's share of the pool, in basis points.
    pub open spec fn spec_multiplier(self) -> u64 {
        match self {
            WinTier::Rare => 10000,
            WinTier::Medium => 5000,
            WinTier::Common => 2500,
        }
    }

    /// The tier's share of the pool, in basis points.
    pub fn multiplier(&self) -> (bps: u64)
        ensures
            bps == self.spec_multiplier(),
    {
        match self {
            WinTier::Rare => 10000,
            WinTier::Medium => 5000,
            WinTier::Common => 2500,
        }
    }
}

/// The tier that a roll wins under a win probability, or `None` where it loses.
///
/// A roll wins iff it is below the probability. Among winning rolls, those
/// below a tenth of the probability are rare, those below half of it medium,
/// the others common.
pub open spec fn tier_of(roll: int, win_probability_bps: int) -> Option<WinTier> {
    if roll >= win_probability_bps {
        None
    } else if roll < win_probability_bps / 10 {
        Some(WinTier::Rare)
    } else if roll < win_probability_bps / 2 {
        Some(WinTier::Medium)
    } else {
        Some(WinTier::Common)
    }
}

/// Classifies a roll; see [`tier_of`].
pub fn classify_roll(roll: u64, win_probability_bps: u16) -> (tier: Option<WinTier>)
    ensures
        tier == tier_of(roll as int, win_probability_bps as int),
{
    let threshold: u64 = win_probability_bps as u64;
    if roll >= threshold {
        None
    } else if roll < threshold / 10 {
        Some(WinTier::Rare)
    } else if roll < threshold / 2 {
        Some(WinTier::Medium)
    } else {
        Some(WinTier::Common)
    }
}

/// What a fulfilment decides about one stake.
#[derive(Clone, Copy, Debug, PartialEq, Eq, Structural)]
pub struct WinDecision {
    /// The roll, in `0..10000`.
    pub roll: u64,
    /// The tier won, or `None` for a loss.
    pub tier: Option<WinTier>,
    /// What the pool pays for the win; 0 for a loss.
    pub payout: u64,
}

impl WinDecision {
    /// Whether the stake won.
    pub open spec fn won(self) -> bool {
        self.tier is Some
    }
}

/// The decision for a random value, a win probability and a pool balance:
/// a loss, a win with its tier and payout, or `MathOverflow` where the payout
/// cannot be computed in 64 bits.
pub open spec fn decision_of(random: Seq<u8>, win_probability_bps: u16, pool_balance: u64) -> Result<
    WinDecision,
    CasinoError,
>
    recommends
        random.len() >= 8,
{
    let roll = roll_of(random);
    match tier_of(roll, win_probability_bps as int) {
        None => Ok(WinDecision { roll: roll as u64, tier: None, payout: 0 }),
        Some(tier) => if pool_balance * tier.spec_multiplier() > u64::MAX {
            Err(CasinoError::MathOverflow)
        } else {
            Ok(
                WinDecision {
                    roll: roll as u64,
                    tier: Some(tier),
                    payout: portion(pool_balance as int, tier.spec_multiplier() as int) as u64,
                },
            )
        },
    }
}

/// Decides win or loss, tier and payout. The result depends on nothing but the
/// three arguments.
pub fn determine_win(random: &[u8; 32], win_probability_bps: u16, pool_balance: u64) -> (r: Result<
    WinDecision,
    CasinoError,
>)
    ensures
        r == decision_of(random@, win_probability_bps, pool_balance),
        r matches Ok(d) ==> d.roll < 10000 && d.payout <= pool_balance,
        r is Err ==> pool_balance * 10000 > u64::MAX,
{
    let roll: u64 = leading_u64(random) % ROLL_MODULUS;
    match classify_roll(roll, win_probability_bps) {
        None => Ok(WinDecision { roll, tier: None, payout: 0 }),
        Some(tier) => {
            let payout: u64 = match checked_portion(pool_balance, tier.multiplier()) {
                Ok(payout) => payout,
                Err(e) => { return Err(e); },
            };
            proof {
                lemma_portion_within_amount(pool_balance as int, tier.spec_multiplier() as int);
            }
            // The pool never pays more than it holds.
            if payout > pool_balance {
                return Err(CasinoError::InsufficientFunds);
            }
            Ok(WinDecision { roll, tier: Some(tier), payout })
        },
    }
}

/// Only the first eight bytes of a delivered value bear on the decision.
pub proof fn lemma_decision_reads_leading_bytes(
    first: Seq<u8>,
    second: Seq<u8>,
    win_probability_bps: u16,
    pool_balance: u64,
)
    requires
        forall|i: int| 0 <= i < 8 ==> first[i] == second[i],
    ensures
        decision_of(first, win_probability_bps, pool_balance) == decision_of(
            second,
            win_probability_bps,
            pool_balance,
        ),
{
    assert(le_u64(first) == le_u64(second));
}

/// Whether the pool has reached its reset threshold. A threshold of 0 never is.
pub open spec fn reset_due(pool_balance: u64, reset_threshold: u64) -> bool {
    reset_threshold > 0 && pool_balance >= reset_threshold
}

/// What an automatic reset pays out of a pool: half the threshold, rounded
/// down, once the threshold is reached; nothing before.
pub open spec fn reset_payout_of(pool_balance: u64, reset_threshold: u64) -> u64 {
    if reset_due(pool_balance, reset_threshold) {
        reset_threshold / 2
    } else {
        0
    }
}

/// The payout of the reset that is due for a pool, or `None` where none is due.
pub fn reset_payout(pool_balance: u64, reset_threshold: u64) -> (payout: Option<u64>)
    ensures
        payout is Some <==> reset_due(pool_balance, reset_threshold),
        payout matches Some(p) ==> p == reset_threshold / 2 && p <= pool_balance,
        payout.unwrap_or(0) == reset_payout_of(pool_balance, reset_threshold),
{
    if pool_balance >= reset_threshold && reset_threshold > 0 {
        Some(reset_threshold / 2)
    } else {
        None
    }
}

} // verus!
