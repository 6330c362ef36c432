//! A binary-outcome betting engine for a single price-prediction market.
//!
//! Participants lock funds against a `(price_level, timestamp)` coordinate.
//! After the market closes, the funds staked on a timestamp "column" are
//! paid out among the unclaimed bets that share a `(price_level, timestamp)`
//! pair, one claim at a time.
//!
//! The engine itself is pure: storage, fund transfers, the clock and the
//! caller's identity are collaborators of the host, which hands their values
//! in as plain arguments and performs the transfers the engine asks for.

use vstd::prelude::*;

pub mod state;
pub mod contract;

verus! {

/// Identifies a bet: one bet per distinct (owner, price_level, timestamp)
/// triple.
#[derive(Clone, Copy, Debug, PartialEq, Eq, Structural)]
pub struct BetId {
    pub owner: u64,
    pub price_level: u64,
    pub timestamp: u64,
}

/// One escrow record, created by `place_bet` and never deleted.
#[derive(Clone, Copy, Debug, PartialEq, Eq, Structural)]
pub struct BetInfo {
    pub bet_id: BetId,
    pub owner: u64,
    pub price_level: u64,
    pub timestamp: u64,
    pub amount: u64,
    pub claimed: bool,
}

/// Why an operation was rejected. Every rejection leaves the ledger
/// unchanged, except the time-based auto-close that accompanies
/// `MarketExpired`.
#[derive(Clone, Copy, Debug, PartialEq, Eq, Structural)]
pub enum Error {
    MarketClosed,
    MarketExpired,
    DuplicateBet,
    TransferFailed,
    BetNotFound,
    AlreadyClaimed,
    NotOwner,
    MarketNotClosed,
    NoWinners,
    ZeroReward,
}

/// Operations that can be sent to the application.
#[derive(Clone, Copy, Debug)]
pub enum Operation {
    /// Place a bet on a price level at a specific timestamp.
    PlaceBet { price_level: u64, timestamp: u64, amount: u64 },
    /// Claim the reward for a winning bet.
    ClaimReward { bet_id: BetId },
}

/// Parameters of the application.
#[derive(Clone, Debug)]
pub struct Parameters {
    pub market_id: String,
    pub target_price: u64,
    pub end_time: u64,
}

/// Argument of the one-time initialization.
#[derive(Clone, Debug)]
pub struct InitializationArgument {
    pub market_id: String,
    pub target_price: u64,
    pub end_time: u64,
}

/// The full ledger state of one market: configuration and status, the bets
/// by identifier, and the accumulated stake of each timestamp column.
pub struct SignalsState {
    pub market_id: String,
    pub target_price: u64,
    pub end_time: u64,
    pub is_closed: bool,
    pub final_price: Option<u64>,
    pub bets: Vec<BetInfo>,
    /// One `(timestamp, total)` entry per column that has received a bet.
    pub column_pools: Vec<(u64, u64)>,
}

/// The Signals application: the engine, holding the market's ledger state.
pub struct SignalsApp {
    pub state: SignalsState,
}

} // verus!
