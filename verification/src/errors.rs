//! The error taxonomy. Every operation fails with exactly one of these kinds,
//! and a failing operation leaves all entities and balances unchanged (the one
//! exception: a late bet flips the market's betting flag while it is refused).

use vstd::prelude::*;

verus! {

/// Why an operation was refused.
#[derive(Clone, Copy, Debug, PartialEq, Eq, Structural)]
pub enum ErrorCode {
    /// The market is already resolved; Resolve succeeds at most once.
    AlreadyResolved,
    /// Claim against a market that nobody has resolved yet.
    NotResolved,
    /// The bet's winnings were already claimed; Claim succeeds at most once.
    AlreadyClaimed,
    /// The bet's side is not the winning outcome.
    WrongBet,
    /// A stake arrived after the close time, or after resolution.
    BettingClosed,
    /// The stake is zero or above the policy cap.
    BetAmountInvalid,
    /// The bet references a different market than the one claimed against.
    MarketMismatch,
    /// The question text is shorter or longer than the configured bounds.
    InvalidQuestionLength,
    /// The close time does not lie strictly after both the creation time and now.
    InvalidCloseTime,
    /// The caller is not the identity the operation demands.
    Unauthorized,
    /// Nobody staked on the winning side, so no proportional share exists.
    NoWinningPool,
    /// Checked arithmetic would exceed the representable range.
    Overflow,
    /// A pool balance is too small to cover the requested debit.
    InsufficientFunds,
}

} // verus!
