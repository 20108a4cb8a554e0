//! Observable notifications. Each successful operation has a snapshot the
//! surrounding runtime may deliver to external consumers; delivery is
//! best-effort and never enforces an invariant, so nothing in the core depends
//! on these values.

use vstd::prelude::*;

verus! {

/// Snapshot of a freshly created market.
#[derive(Clone, Debug, PartialEq, Eq)]
pub struct MarketCreated {
    /// The new market's key.
    pub market: u64,
    /// Creation timestamp the caller supplied.
    pub created_at: i64,
    /// Close time the market was created with.
    pub close_time: i64,
    /// Identity permitted to resolve the market.
    pub authority: u64,
    /// The validated question text.
    pub question: String,
    /// Free-form category label; the core does not read it.
    pub category: String,
}

/// Snapshot of an accepted stake.
#[derive(Clone, Copy, Debug, PartialEq, Eq, Structural)]
pub struct BetPlaced {
    /// Key of the market staked on.
    pub market: u64,
    /// Identity that placed the stake.
    pub user: u64,
    /// The stake.
    pub amount: u64,
    /// The side staked on.
    pub outcome: bool,
}

/// Snapshot of a resolution.
#[derive(Clone, Copy, Debug, PartialEq, Eq, Structural)]
pub struct MarketResolved {
    /// Key of the resolved market.
    pub market: u64,
    /// The outcome the authority fixed.
    pub winning_outcome: bool,
    /// Fee taken from the losing pool.
    pub fee: u64,
}

/// Snapshot of a paid claim.
#[derive(Clone, Copy, Debug, PartialEq, Eq, Structural)]
pub struct WinningsClaimed {
    /// Key of the market claimed against.
    pub market: u64,
    /// Identity the payout was credited to.
    pub user: u64,
    /// The stake returned plus the share of the losing pool.
    pub payout: u64,
}

} // verus!
