//! Place a stake: gatekeep on the betting flag and the current time, validate
//! the amount, credit the chosen pool and the market total atomically, and
//! mint the bet record.

use crate::errors::ErrorCode;
use crate::state::bet::BetAccount;
use crate::state::ledger::conserved;
use crate::state::ledger::Ledger;
use crate::state::market::Market;
use vstd::prelude::*;

verus! {

/// One billion base units of value per whole coin.
pub const LAMPORTS_PER_SOL: u64 = 1_000_000_000;

/// Smallest stake accepted.
pub const MIN_BET_AMOUNT: u64 = 1;

/// Largest stake accepted: ten whole coins.
pub const MAX_BET_AMOUNT: u64 = 10 * LAMPORTS_PER_SOL;

/// Why a stake is refused, or `None` when it is accepted. Checked in order:
/// the betting flag, the close time, the amount bounds, then that both the
/// market total and the pool balance of the chosen side can absorb the stake.
pub open spec fn place_bet_error(
    m: Market,
    lg: Ledger,
    amount: u64,
    outcome: bool,
    now: int,
) -> Option<ErrorCode> {
    if !m.bet {
        Some(ErrorCode::BettingClosed)
    } else if now > m.close_time {
        Some(ErrorCode::BettingClosed)
    } else if !(MIN_BET_AMOUNT <= amount <= MAX_BET_AMOUNT) {
        Some(ErrorCode::BetAmountInvalid)
    } else if outcome && (m.total_yes + amount > u64::MAX || lg.yes_pool + amount > u64::MAX) {
        Some(ErrorCode::Overflow)
    } else if !outcome && (m.total_no + amount > u64::MAX || lg.no_pool + amount > u64::MAX) {
        Some(ErrorCode::Overflow)
    } else {
        None
    }
}

/// The market after a stake of `amount` is accepted on `outcome`.
pub open spec fn market_after_bet(m: Market, amount: u64, outcome: bool) -> Market {
    if outcome {
        Market { total_yes: (m.total_yes + amount) as u64, ..m }
    } else {
        Market { total_no: (m.total_no + amount) as u64, ..m }
    }
}

/// The market after betting is lazily closed: only the betting flag drops.
pub open spec fn market_after_late_close(m: Market) -> Market {
    Market { bet: false, ..m }
}

/// Place a stake of `amount` on `outcome` for `user`, at the instant `now`.
///
/// On success the chosen side's cumulative total and pool balance both grow by
/// the stake and the new bet record is returned, unclaimed. On failure nothing
/// moves; the one state change a refusal may make is dropping the betting flag
/// when the close time is first seen to have passed, so that a lazily detected
/// closure never lets value through. A call after the close time always fails
/// with `BettingClosed`.
pub fn place_bet(
    market: &mut Market,
    ledger: &mut Ledger,
    user: u64,
    amount: u64,
    outcome: bool,
    now: i64,
) -> (r: Result<BetAccount, ErrorCode>)
    ensures
        match r {
            Ok(b) => {
                &&& place_bet_error(*old(market), *old(ledger), amount, outcome, now as int)
                    is None
                &&& b == (BetAccount {
                    user,
                    market: old(market).key,
                    amount,
                    outcome,
                    claimed: false,
                })
                &&& *final(market) == market_after_bet(*old(market), amount, outcome)
                &&& final(ledger).spec_balance_of(outcome) == old(ledger).spec_balance_of(outcome)
                    + amount
                &&& final(ledger).spec_balance_of(!outcome) == old(ledger).spec_balance_of(
                    !outcome,
                )
                &&& final(ledger).paid_out == old(ledger).paid_out
            },
            Err(e) => {
                &&& place_bet_error(*old(market), *old(ledger), amount, outcome, now as int)
                    == Some(e)
                &&& *final(ledger) == *old(ledger)
                &&& *final(market) == (if old(market).bet && now > old(market).close_time {
                    market_after_late_close(*old(market))
                } else {
                    *old(market)
                })
            },
        },
        now > old(market).close_time ==> r == Err::<BetAccount, ErrorCode>(
            ErrorCode::BettingClosed,
        ),
        final(market).total_yes + final(market).total_no >= old(market).total_yes + old(
            market,
        ).total_no,
        old(market).well_formed() ==> final(market).well_formed(),
        conserved(*old(market), *old(ledger)) ==> conserved(*final(market), *final(ledger)),
{
    if !market.bet {
        return Err(ErrorCode::BettingClosed);
    }
    if now > market.close_time {
        market.bet = false;
        return Err(ErrorCode::BettingClosed);
    }
    if amount < MIN_BET_AMOUNT || amount > MAX_BET_AMOUNT {
        return Err(ErrorCode::BetAmountInvalid);
    }
    let total = if outcome {
        market.total_yes
    } else {
        market.total_no
    };
    let new_total = match total.checked_add(amount) {
        Some(t) => t,
        None => {
            return Err(ErrorCode::Overflow);
        },
    };
    let balance = ledger.balance_of(outcome);
    if balance > u64::MAX - amount {
        return Err(ErrorCode::Overflow);
    }
    let credited = ledger.credit(outcome, amount);
    match credited {
        Ok(()) => {},
        Err(e) => {
            return Err(e);
        },
    }
    if outcome {
        market.total_yes = new_total;
    } else {
        market.total_no = new_total;
    }
    Ok(BetAccount { user, market: market.key, amount, outcome, claimed: false })
}

} // verus!
