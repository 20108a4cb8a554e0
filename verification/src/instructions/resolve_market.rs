//! Resolve: the authority fixes the outcome exactly once, betting closes for
//! good, and the configured fee is taken from the losing pool.
//!
//! Timing policy: the authority may resolve at any time, before or after the
//! close time; authorship of the call is the sole gate. Resolution itself
//! closes betting, so an early resolution suppresses further stakes.

use crate::errors::ErrorCode;
use crate::settlement::compute_fee;
use crate::settlement::fee_of;
use crate::state::ledger::conserved;
use crate::state::ledger::Ledger;
use crate::state::market::Market;
use vstd::prelude::*;

verus! {

/// Why a resolve call is refused, or `None` when it succeeds. Checked in
/// order: the caller must be the stored authority, the market must not already
/// be resolved, and the fee product over the losing pool must fit.
pub open spec fn resolve_error(
    m: Market,
    lg: Ledger,
    caller: u64,
    outcome: bool,
    fee_percent: u64,
) -> Option<ErrorCode> {
    if caller != m.authority {
        Some(ErrorCode::Unauthorized)
    } else if m.resolved {
        Some(ErrorCode::AlreadyResolved)
    } else if lg.spec_balance_of(!outcome) * fee_percent > u64::MAX {
        Some(ErrorCode::Overflow)
    } else {
        None
    }
}

/// The market after a successful resolution to `outcome` with fee `fee`.
pub open spec fn market_after_resolve(m: Market, outcome: bool, fee: u64) -> Market {
    Market { bet: false, resolved: true, winning_outcome: outcome, fee_collected: fee, ..m }
}

/// Resolve the market to `outcome`, taking `fee_percent` percent of the losing
/// pool as the protocol fee.
///
/// On success the market is terminally resolved with betting closed, the fee —
/// the floor-divided percentage of the losing pool's balance — is debited from
/// that pool and recorded in `fee_collected`, and the winning pool is
/// untouched. On failure nothing changes. At most one resolve ever succeeds:
/// success requires `resolved` to be false and sets it to true forever.
pub fn resolve_market(
    market: &mut Market,
    ledger: &mut Ledger,
    caller: u64,
    outcome: bool,
    fee_percent: u64,
) -> (r: Result<(), ErrorCode>)
    requires
        fee_percent <= 100,
    ensures
        match r {
            Ok(()) => {
                &&& resolve_error(*old(market), *old(ledger), caller, outcome, fee_percent)
                    is None
                &&& !old(market).resolved
                &&& *final(market) == market_after_resolve(
                    *old(market),
                    outcome,
                    fee_of(old(ledger).spec_balance_of(!outcome) as int, fee_percent as int) as u64,
                )
                &&& final(ledger).spec_balance_of(!outcome) == old(ledger).spec_balance_of(!outcome)
                    - final(market).fee_collected
                &&& final(ledger).spec_balance_of(outcome) == old(ledger).spec_balance_of(outcome)
                &&& final(ledger).paid_out == old(ledger).paid_out
            },
            Err(e) => {
                &&& resolve_error(*old(market), *old(ledger), caller, outcome, fee_percent)
                    == Some(e)
                &&& *final(market) == *old(market)
                &&& *final(ledger) == *old(ledger)
            },
        },
        old(market).resolved ==> *final(market) == *old(market) && final(market).winning_outcome
            == old(market).winning_outcome,
        old(market).well_formed() ==> final(market).well_formed(),
        (old(market).fee_collected == 0 && conserved(*old(market), *old(ledger))) ==> conserved(
            *final(market),
            *final(ledger),
        ),
{
    if caller != market.authority {
        return Err(ErrorCode::Unauthorized);
    }
    if market.resolved {
        return Err(ErrorCode::AlreadyResolved);
    }
    let loser_balance = ledger.balance_of(!outcome);
    let fee = match compute_fee(loser_balance, fee_percent) {
        Ok(f) => f,
        Err(e) => {
            return Err(e);
        },
    };
    let debited = ledger.debit(!outcome, fee);
    match debited {
        Ok(()) => {},
        Err(e) => {
            return Err(e);
        },
    }
    market.resolved = true;
    market.winning_outcome = outcome;
    market.bet = false;
    market.fee_collected = fee;
    Ok(())
}

/// Resolve exclusivity: once a resolve has succeeded, every further resolve by
/// the authority reports `AlreadyResolved`, whatever the pools then hold and
/// whatever outcome or fee it asks for, and the stored outcome stays the one
/// the first resolve fixed.
pub proof fn lemma_resolve_exclusive(
    m: Market,
    outcome: bool,
    fee: u64,
    lg2: Ledger,
    outcome2: bool,
    fee_percent2: u64,
)
    ensures
        resolve_error(market_after_resolve(m, outcome, fee), lg2, m.authority, outcome2,
            fee_percent2,
        ) == Some(ErrorCode::AlreadyResolved),
        market_after_resolve(m, outcome, fee).winning_outcome == outcome,
{
}

} // verus!
