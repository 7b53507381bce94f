//! The records that the engine keeps: configuration, jackpot pool, stakes,
//! yield reserve, claim ledgers and randomness requests.

use vstd::prelude::*;
use crate::identity::Identity;

verus! {

/// Largest accepted oracle selector (0 and 1 name the two supported oracles).
pub const MAX_VRF_PROVIDER: u8 = 1;

/// Length of a reward distribution period given to a new reserve: one day.
pub const DEFAULT_DISTRIBUTION_PERIOD: i64 = 86400;

/// Global parameters and running counters.
#[derive(Clone, Copy, Debug, PartialEq, Eq)]
pub struct Config {
    /// Who may update the configuration and withdraw house fees.
    pub authority: Identity,
    /// Share of each stake that goes to the jackpot pool, in basis points.
    pub jackpot_percentage: u16,
    /// Share of each stake that goes to the house, in basis points.
    pub house_percentage: u16,
    /// Share of each stake that goes to the yield reserve, in basis points.
    pub defi_percentage: u16,
    /// Smallest accepted stake.
    pub min_bet: u64,
    /// Largest accepted stake.
    pub max_bet: u64,
    /// Chance of a win per fulfilment, in basis points.
    pub win_probability_bps: u16,
    /// Oracle selector.
    pub vrf_provider: u8,
    /// Network identifier of the first oracle, if it is used.
    pub orao_network: Option<Identity>,
    /// Queue identifier of the second oracle, if it is used.
    pub switchboard_queue: Option<Identity>,
    /// Address seed of the yield reserve.
    pub defi_vault_bump: u8,
    /// Number of stakes accepted so far.
    pub total_bets: u64,
    /// Number of wins paid so far.
    pub total_wins: u64,
    /// Address seed of this record.
    pub bump: u8,
}

/// The three percentages together do not exceed 100%.
pub open spec fn percentages_valid(jackpot: u16, house: u16, defi: u16) -> bool {
    jackpot + house + defi <= 10000
}

/// The smallest stake is positive and not above the largest.
pub open spec fn bet_bounds_valid(min_bet: u64, max_bet: u64) -> bool {
    0 < min_bet <= max_bet
}

/// The win probability lies between 0.01% and 100%.
pub open spec fn win_probability_valid(win_probability_bps: u16) -> bool {
    0 < win_probability_bps <= 10000
}

impl Config {
    /// What every stored configuration satisfies.
    pub open spec fn wf(self) -> bool {
        &&& percentages_valid(self.jackpot_percentage, self.house_percentage, self.defi_percentage)
        &&& bet_bounds_valid(self.min_bet, self.max_bet)
        &&& win_probability_valid(self.win_probability_bps)
        &&& self.vrf_provider <= MAX_VRF_PROVIDER
    }
}

/// The progressive jackpot pool.
#[derive(Clone, Copy, Debug, PartialEq, Eq)]
pub struct JackpotPool {
    /// Funds currently in the pool.
    pub balance: u64,
    /// Who won last, if anyone has.
    pub last_winner: Option<Identity>,
    /// When the last win happened.
    pub last_win_timestamp: Option<i64>,
    /// Pool balance at which part of the pool is paid out automatically; 0 disables this.
    pub reset_threshold: u64,
    /// Stakes accepted since the last win or reset.
    pub bets_since_win: u64,
    /// Number of stakes after which a randomness request is opened; 0 opens one for every stake.
    pub milestone_bets: u64,
    /// Address seed of this record.
    pub bump: u8,
}

/// Where a stake stands.
#[derive(Clone, Copy, Debug, PartialEq, Eq, Structural)]
pub enum BetStatus {
    Pending,
    Won,
    Lost,
    Refunded,
}

impl BetStatus {
    /// The number under which a status is stored.
    pub open spec fn spec_code(self) -> u8 {
        match self {
            BetStatus::Pending => 0,
            BetStatus::Won => 1,
            BetStatus::Lost => 2,
            BetStatus::Refunded => 3,
        }
    }

    /// The number under which this status is stored.
    pub fn code(&self) -> (c: u8)
        ensures
            c == self.spec_code(),
    {
        match self {
            BetStatus::Pending => 0,
            BetStatus::Won => 1,
            BetStatus::Lost => 2,
            BetStatus::Refunded => 3,
        }
    }

    /// The status stored under a number, if the number stands for one.
    pub fn from_code(c: u8) -> (status: Option<BetStatus>)
        ensures
            c <= 3 ==> status is Some && status->0.spec_code() == c,
            c > 3 ==> status is None,
    {
        if c == 0 {
            Some(BetStatus::Pending)
        } else if c == 1 {
            Some(BetStatus::Won)
        } else if c == 2 {
            Some(BetStatus::Lost)
        } else if c == 3 {
            Some(BetStatus::Refunded)
        } else {
            None
        }
    }
}

/// One stake.
#[derive(Clone, Copy, Debug, PartialEq, Eq)]
pub struct Bet {
    /// Who staked.
    pub player: Identity,
    /// The amount staked.
    pub amount: u64,
    /// When the stake was accepted.
    pub timestamp: i64,
    /// Identifier of the randomness request opened for this stake, if one was.
    pub vrf_request_id: Option<[u8; 32]>,
    /// Where the stake stands.
    pub status: BetStatus,
    /// What the stake won; 0 unless it won.
    pub win_amount: u64,
    /// Address seed of this record.
    pub bump: u8,
}

impl Bet {
    /// Only a stake that won carries a win amount.
    pub open spec fn wf(self) -> bool {
        self.status != BetStatus::Won ==> self.win_amount == 0
    }
}

/// The yield-bearing reserve.
#[derive(Clone, Copy, Debug, PartialEq, Eq)]
pub struct RewardVault {
    /// Funds staked into the reserve.
    pub staked_amount: u64,
    /// Rewards paid out so far.
    pub total_rewards_distributed: u64,
    /// When rewards were last paid out.
    pub last_distribution: i64,
    /// Length of a distribution period, in seconds.
    pub distribution_period: i64,
    /// Annual yield, in basis points.
    pub apy_bps: u16,
    /// Address seed of this record.
    pub bump: u8,
}

/// What one claimant has earned and claimed.
#[derive(Clone, Copy, Debug, PartialEq, Eq)]
pub struct RewardClaim {
    /// The claimant; the default identity while the ledger is unused.
    pub user: Identity,
    /// Rewards earned so far.
    pub total_earned: u64,
    /// Rewards claimed so far.
    pub total_claimed: u64,
    /// When the claimant last claimed.
    pub last_claim: i64,
    /// Address seed of this record.
    pub bump: u8,
}

impl RewardClaim {
    /// Nobody has claimed more than they earned.
    pub open spec fn wf(self) -> bool {
        self.total_claimed <= self.total_earned
    }
}

/// Where a randomness request stands.
#[derive(Clone, Copy, Debug, PartialEq, Eq, Structural)]
pub enum VrfStatus {
    Pending,
    Fulfilled,
    TimedOut,
}

impl VrfStatus {
    /// The number under which a status is stored.
    pub open spec fn spec_code(self) -> u8 {
        match self {
            VrfStatus::Pending => 0,
            VrfStatus::Fulfilled => 1,
            VrfStatus::TimedOut => 2,
        }
    }

    /// The number under which this status is stored.
    pub fn code(&self) -> (c: u8)
        ensures
            c == self.spec_code(),
    {
        match self {
            VrfStatus::Pending => 0,
            VrfStatus::Fulfilled => 1,
            VrfStatus::TimedOut => 2,
        }
    }

    /// The status stored under a number, if the number stands for one.
    pub fn from_code(c: u8) -> (status: Option<VrfStatus>)
        ensures
            c <= 2 ==> status is Some && status->0.spec_code() == c,
            c > 2 ==> status is None,
    {
        if c == 0 {
            Some(VrfStatus::Pending)
        } else if c == 1 {
            Some(VrfStatus::Fulfilled)
        } else if c == 2 {
            Some(VrfStatus::TimedOut)
        } else {
            None
        }
    }
}

/// One request to the randomness oracle, serving exactly one stake.
#[derive(Clone, Copy, Debug, PartialEq, Eq)]
pub struct VrfRequest {
    /// The stake that this request serves.
    pub bet: Identity,
    /// Who staked.
    pub player: Identity,
    /// When the request was opened.
    pub timestamp: i64,
    /// Identifier of the request.
    pub request_id: [u8; 32],
    /// Where the request stands.
    pub status: VrfStatus,
    /// The random value delivered, once there is one.
    pub result: Option<[u8; 32]>,
    /// Address seed of this record.
    pub bump: u8,
}

impl VrfRequest {
    /// A pending request holds no result yet, a fulfilled one holds its result.
    pub open spec fn wf(self) -> bool {
        &&& self.status == VrfStatus::Pending ==> self.result is None
        &&& self.status == VrfStatus::Fulfilled ==> self.result is Some
    }
}

/// Whether all 32 bytes are zero.
pub open spec fn all_zero(bytes: [u8; 32]) -> bool {
    forall|i: int| 0 <= i < 32 ==> bytes[i] == 0u8
}

impl Config {
    /// A record in which nothing has been written yet.
    pub open spec fn is_fresh(self) -> bool {
        &&& self.authority.is_default()
        &&& self.jackpot_percentage == 0
        &&& self.house_percentage == 0
        &&& self.defi_percentage == 0
        &&& self.min_bet == 0
        &&& self.max_bet == 0
        &&& self.win_probability_bps == 0
        &&& self.vrf_provider == 0
        &&& self.orao_network is None
        &&& self.switchboard_queue is None
        &&& self.defi_vault_bump == 0
        &&& self.total_bets == 0
        &&& self.total_wins == 0
        &&& self.bump == 0
    }
}

impl Default for Config {
    fn default() -> (record: Config)
        ensures
            record.is_fresh(),
    {
        Config {
            authority: Identity::default(),
            jackpot_percentage: 0,
            house_percentage: 0,
            defi_percentage: 0,
            min_bet: 0,
            max_bet: 0,
            win_probability_bps: 0,
            vrf_provider: 0,
            orao_network: None,
            switchboard_queue: None,
            defi_vault_bump: 0,
            total_bets: 0,
            total_wins: 0,
            bump: 0,
        }
    }
}

impl JackpotPool {
    /// A record in which nothing has been written yet.
    pub open spec fn is_fresh(self) -> bool {
        self == (JackpotPool {
            balance: 0,
            last_winner: None,
            last_win_timestamp: None,
            reset_threshold: 0,
            bets_since_win: 0,
            milestone_bets: 0,
            bump: 0,
        })
    }
}

impl Default for JackpotPool {
    fn default() -> (record: JackpotPool)
        ensures
            record.is_fresh(),
    {
        JackpotPool {
            balance: 0,
            last_winner: None,
            last_win_timestamp: None,
            reset_threshold: 0,
            bets_since_win: 0,
            milestone_bets: 0,
            bump: 0,
        }
    }
}

impl Bet {
    /// A record in which nothing has been written yet.
    pub open spec fn is_fresh(self) -> bool {
        &&& self.player.is_default()
        &&& self.amount == 0
        &&& self.timestamp == 0
        &&& self.vrf_request_id is None
        &&& self.status == BetStatus::Pending
        &&& self.win_amount == 0
        &&& self.bump == 0
    }
}

impl Default for Bet {
    fn default() -> (record: Bet)
        ensures
            record.is_fresh(),
    {
        Bet {
            player: Identity::default(),
            amount: 0,
            timestamp: 0,
            vrf_request_id: None,
            status: BetStatus::Pending,
            win_amount: 0,
            bump: 0,
        }
    }
}

impl RewardVault {
    /// A record in which nothing has been written yet.
    pub open spec fn is_fresh(self) -> bool {
        self == (RewardVault {
            staked_amount: 0,
            total_rewards_distributed: 0,
            last_distribution: 0,
            distribution_period: 0,
            apy_bps: 0,
            bump: 0,
        })
    }
}

impl Default for RewardVault {
    fn default() -> (record: RewardVault)
        ensures
            record.is_fresh(),
    {
        RewardVault {
            staked_amount: 0,
            total_rewards_distributed: 0,
            last_distribution: 0,
            distribution_period: 0,
            apy_bps: 0,
            bump: 0,
        }
    }
}

impl RewardClaim {
    /// A ledger that no claimant has used yet.
    pub open spec fn is_fresh(self) -> bool {
        &&& self.user.is_default()
        &&& self.total_earned == 0
        &&& self.total_claimed == 0
        &&& self.last_claim == 0
        &&& self.bump == 0
    }
}

impl Default for RewardClaim {
    fn default() -> (record: RewardClaim)
        ensures
            record.is_fresh(),
    {
        RewardClaim {
            user: Identity::default(),
            total_earned: 0,
            total_claimed: 0,
            last_claim: 0,
            bump: 0,
        }
    }
}

impl VrfRequest {
    /// A record in which nothing has been written yet.
    pub open spec fn is_fresh(self) -> bool {
        &&& self.bet.is_default()
        &&& self.player.is_default()
        &&& self.timestamp == 0
        &&& all_zero(self.request_id)
        &&& self.status == VrfStatus::Pending
        &&& self.result is None
        &&& self.bump == 0
    }
}

impl Default for VrfRequest {
    fn default() -> (record: VrfRequest)
        ensures
            record.is_fresh(),
    {
        VrfRequest {
            bet: Identity::default(),
            player: Identity::default(),
            timestamp: 0,
            request_id: [0u8; 32],
            status: VrfStatus::Pending,
            result: None,
            bump: 0,
        }
    }
}

} // verus!
