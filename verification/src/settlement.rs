//! The settlement engine: integer-exact pari-mutuel arithmetic.
//!
//! A winner receives its own stake back plus a floor-divided proportional share
//! of the losing pool; the optional resolution fee is a floor-divided
//! percentage of the losing pool. All arithmetic is overflow-checked and
//! surfaces [`ErrorCode::Overflow`] instead of wrapping.

use crate::errors::ErrorCode;
use vstd::prelude::*;

verus! {

/// The fee taken from a losing pool of `balance` at `percent` percent,
/// rounded down.
pub open spec fn fee_of(balance: int, percent: int) -> int {
    balance * percent / 100
}

/// A winning stake's share of the losing pool: proportional to the stake
/// within the winning total, rounded down.
pub open spec fn share_of(loser_balance: int, amount: int, winning_total: int) -> int {
    loser_balance * amount / winning_total
}

/// The full payout of a winning stake: the stake back plus its share of the
/// losing pool.
pub open spec fn payout_of(loser_balance: int, amount: int, winning_total: int) -> int {
    amount + share_of(loser_balance, amount, winning_total)
}

/// Compute the resolution fee. Succeeds exactly when the intermediate product
/// fits; the fee never exceeds the balance it is taken from.
pub fn compute_fee(balance: u64, percent: u64) -> (r: Result<u64, ErrorCode>)
    requires
        percent <= 100,
    ensures
        match r {
            Ok(fee) => {
                &&& balance * percent <= u64::MAX
                &&& fee == fee_of(balance as int, percent as int)
                &&& fee <= balance
            },
            Err(e) => {
                &&& e == ErrorCode::Overflow
                &&& balance * percent > u64::MAX
            },
        },
{
    match balance.checked_mul(percent) {
        Some(scaled) => {
            let fee = scaled / 100;
            proof {
                lemma_fee_le_balance(balance as int, percent as int);
            }
            Ok(fee)
        },
        None => Err(ErrorCode::Overflow),
    }
}

/// Compute a winning stake's payout against the current losing-pool balance.
/// Succeeds exactly when both the intermediate product and the final sum fit.
pub fn compute_payout(loser_balance: u64, amount: u64, winning_total: u64) -> (r: Result<
    u64,
    ErrorCode,
>)
    requires
        winning_total > 0,
    ensures
        match r {
            Ok(payout) => {
                &&& loser_balance * amount <= u64::MAX
                &&& amount + share_of(loser_balance as int, amount as int, winning_total as int)
                    <= u64::MAX
                &&& payout == payout_of(loser_balance as int, amount as int, winning_total as int)
            },
            Err(e) => {
                &&& e == ErrorCode::Overflow
                &&& loser_balance * amount > u64::MAX || amount + share_of(
                    loser_balance as int,
                    amount as int,
                    winning_total as int,
                ) > u64::MAX
            },
        },
{
    match loser_balance.checked_mul(amount) {
        Some(scaled) => {
            let share = scaled / winning_total;
            match amount.checked_add(share) {
                Some(payout) => Ok(payout),
                None => Err(ErrorCode::Overflow),
            }
        },
        None => Err(ErrorCode::Overflow),
    }
}

/// A floor-divided percentage of at most one hundred never exceeds the whole.
proof fn lemma_fee_le_balance(balance: int, percent: int)
    requires
        0 <= balance,
        0 <= percent <= 100,
    ensures
        fee_of(balance, percent) <= balance,
{
    assert(balance * percent <= balance * 100) by (nonlinear_arith)
        requires
            0 <= balance,
            percent <= 100,
    ;
    assert(balance * percent / 100 <= balance * 100 / 100) by (nonlinear_arith)
        requires
            balance * percent <= balance * 100,
    ;
    assert(balance * 100 / 100 == balance) by (nonlinear_arith);
}

} // verus!
