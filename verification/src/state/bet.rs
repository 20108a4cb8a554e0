//! The bet entity: one participant's stake on one side of one market.

use vstd::prelude::*;

verus! {

/// One stake. `amount` and `outcome` are fixed at placement; `claimed` flips to
/// true exactly once, by a successful claim, and is the sole guard against a
/// double payout.
#[derive(Clone, Copy, Debug, PartialEq, Eq, Structural)]
pub struct BetAccount {
    /// Identity that placed the stake and may claim its winnings.
    pub user: u64,
    /// Key of the market the stake was placed on.
    pub market: u64,
    /// The stake, positive and within the policy cap at placement.
    pub amount: u64,
    /// The side staked on: true for yes, false for no.
    pub outcome: bool,
    /// False until a successful claim; true forever after.
    pub claimed: bool,
}

/// The bet after its winnings were paid out: only the claimed flag changes.
pub open spec fn bet_after_claim(b: BetAccount) -> BetAccount {
    BetAccount { claimed: true, ..b }
}

} // verus!
