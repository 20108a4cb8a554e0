//! The market entity: one yes/no question with a close time, cumulative pool
//! totals and a terminal resolution state.

use vstd::prelude::*;

verus! {

/// Shortest question text accepted at creation, in characters.
pub const QUESTION_MIN_LEN: usize = 20;

/// Longest question text accepted at creation, in characters.
pub const QUESTION_MAX_LEN: usize = 400;

/// The question length lies within the configured bounds.
pub open spec fn question_len_ok(q: Seq<char>) -> bool {
    QUESTION_MIN_LEN <= q.len() <= QUESTION_MAX_LEN
}

/// One binary-outcome market. `total_yes` and `total_no` record the cumulative
/// stake ever placed on each side; they are never decremented. The balances the
/// stakes feed live in a separate [`crate::state::ledger::Ledger`].
#[derive(Clone, Debug, PartialEq, Eq)]
pub struct Market {
    /// The market's own account key; bets reference it.
    pub key: u64,
    /// Identity permitted to resolve the market. Immutable after creation.
    pub authority: u64,
    /// Betting flag: true until the close time is first seen to have passed,
    /// or until resolution.
    pub bet: bool,
    /// Creation timestamp, supplied by the caller.
    pub created_at: i64,
    /// Last instant at which stakes are accepted. Immutable after creation.
    pub close_time: i64,
    /// The question text, validated once at creation.
    pub question: String,
    /// Cumulative stake ever placed on the yes side.
    pub total_yes: u64,
    /// Cumulative stake ever placed on the no side.
    pub total_no: u64,
    /// Becomes true exactly once, by a successful resolve.
    pub resolved: bool,
    /// Meaningful only when `resolved` is true.
    pub winning_outcome: bool,
    /// Fee taken from the losing pool at resolution; zero before then.
    pub fee_collected: u64,
}

/// Lifecycle position of a market at a given instant.
#[derive(Clone, Copy, Debug, PartialEq, Eq, Structural)]
pub enum MarketState {
    /// Accepting stakes: betting flag set, close time not passed, unresolved.
    Open,
    /// No longer accepting stakes, but not yet resolved.
    Closed,
    /// Terminal: the outcome is fixed and winners may claim.
    Resolved,
}

impl Market {
    /// Structural invariant: established at creation and preserved by every
    /// operation.
    pub open spec fn well_formed(self) -> bool {
        &&& self.close_time > self.created_at
        &&& question_len_ok(self.question@)
        &&& (self.resolved ==> !self.bet)
        &&& (!self.resolved ==> self.fee_collected == 0)
    }

    /// The lifecycle state as a pure function of the stored flags and the
    /// current time; entry points evaluate it rather than trusting a cached
    /// state.
    pub open spec fn state_at(self, now: i64) -> MarketState {
        if self.resolved {
            MarketState::Resolved
        } else if !self.bet || now > self.close_time {
            MarketState::Closed
        } else {
            MarketState::Open
        }
    }

    /// Cumulative stake on the side that won; the claim divisor.
    pub open spec fn winning_total(self) -> u64 {
        if self.winning_outcome {
            self.total_yes
        } else {
            self.total_no
        }
    }

    /// Evaluate the lifecycle state at the instant `now`.
    pub fn lifecycle_state(&self, now: i64) -> (s: MarketState)
        ensures
            s == self.state_at(now),
    {
        if self.resolved {
            MarketState::Resolved
        } else if !self.bet || now > self.close_time {
            MarketState::Closed
        } else {
            MarketState::Open
        }
    }
}

} // verus!
