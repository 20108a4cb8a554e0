//! Claim: pay a winning bet its stake back plus its floor-divided share of the
//! losing pool, exactly once.

use crate::errors::ErrorCode;
use crate::settlement::compute_payout;
use crate::settlement::payout_of;
use crate::settlement::share_of;
use crate::state::bet::bet_after_claim;
use crate::state::bet::BetAccount;
use crate::state::ledger::conserved;
use crate::state::ledger::Ledger;
use crate::state::market::Market;
use vstd::prelude::*;

verus! {

/// The share a claim would take from the losing pool.
pub open spec fn claim_share(m: Market, b: BetAccount, lg: Ledger) -> int {
    share_of(
        lg.spec_balance_of(!m.winning_outcome) as int,
        b.amount as int,
        m.winning_total() as int,
    )
}

/// The payout a claim would credit.
pub open spec fn claim_payout(m: Market, b: BetAccount, lg: Ledger) -> int {
    payout_of(
        lg.spec_balance_of(!m.winning_outcome) as int,
        b.amount as int,
        m.winning_total() as int,
    )
}

/// Why a claim is refused, or `None` when it pays. Checked in order: the
/// caller must own the bet; the market must be resolved; the bet must be
/// unclaimed, on the winning side, and bound to this market; somebody must
/// have staked on the winning side; the settlement arithmetic must fit; and
/// both pools must cover their debits.
pub open spec fn claim_error(m: Market, b: BetAccount, lg: Ledger, user: u64) -> Option<
    ErrorCode,
> {
    if user != b.user {
        Some(ErrorCode::Unauthorized)
    } else if !m.resolved {
        Some(ErrorCode::NotResolved)
    } else if b.claimed {
        Some(ErrorCode::AlreadyClaimed)
    } else if b.outcome != m.winning_outcome {
        Some(ErrorCode::WrongBet)
    } else if b.market != m.key {
        Some(ErrorCode::MarketMismatch)
    } else if m.winning_total() == 0 {
        Some(ErrorCode::NoWinningPool)
    } else if lg.spec_balance_of(!m.winning_outcome) * b.amount > u64::MAX || b.amount
        + claim_share(m, b, lg) > u64::MAX || lg.paid_out + claim_payout(m, b, lg) > u64::MAX {
        Some(ErrorCode::Overflow)
    } else if lg.spec_balance_of(m.winning_outcome) < b.amount || lg.spec_balance_of(
        !m.winning_outcome,
    ) < claim_share(m, b, lg) {
        Some(ErrorCode::InsufficientFunds)
    } else {
        None
    }
}

/// Claim the winnings of `bet` against `market` for `user`.
///
/// On success the payout — the stake plus the floor-divided proportional share
/// of the losing pool's post-fee balance — is returned; the stake leaves the
/// winning pool, the share leaves the losing pool, the sum is recorded as paid
/// out, and the bet is marked claimed, all together. On failure nothing
/// changes, and the error names the first precondition that failed. A claimed
/// bet can never pay again: success requires `claimed` to be false and sets it
/// to true forever.
pub fn claim_winnings(market: &Market, bet: &mut BetAccount, ledger: &mut Ledger, user: u64) -> (r:
    Result<u64, ErrorCode>)
    ensures
        match r {
            Ok(payout) => {
                &&& claim_error(*market, *old(bet), *old(ledger), user) is None
                &&& payout == claim_payout(*market, *old(bet), *old(ledger))
                &&& *final(bet) == bet_after_claim(*old(bet))
                &&& final(ledger).spec_balance_of(market.winning_outcome) == old(
                    ledger,
                ).spec_balance_of(market.winning_outcome) - old(bet).amount
                &&& final(ledger).spec_balance_of(!market.winning_outcome) == old(
                    ledger,
                ).spec_balance_of(!market.winning_outcome) - claim_share(
                    *market,
                    *old(bet),
                    *old(ledger),
                )
                &&& final(ledger).paid_out == old(ledger).paid_out + payout
            },
            Err(e) => {
                &&& claim_error(*market, *old(bet), *old(ledger), user) == Some(e)
                &&& *final(bet) == *old(bet)
                &&& *final(ledger) == *old(ledger)
            },
        },
        old(bet).claimed ==> r is Err && *final(bet) == *old(bet) && *final(ledger) == *old(
            ledger,
        ),
        conserved(*market, *old(ledger)) ==> conserved(*market, *final(ledger)),
{
    if user != bet.user {
        return Err(ErrorCode::Unauthorized);
    }
    if !market.resolved {
        return Err(ErrorCode::NotResolved);
    }
    if bet.claimed {
        return Err(ErrorCode::AlreadyClaimed);
    }
    if bet.outcome != market.winning_outcome {
        return Err(ErrorCode::WrongBet);
    }
    if bet.market != market.key {
        return Err(ErrorCode::MarketMismatch);
    }
    let total_winner = if market.winning_outcome {
        market.total_yes
    } else {
        market.total_no
    };
    if total_winner == 0 {
        return Err(ErrorCode::NoWinningPool);
    }
    let winner_balance = ledger.balance_of(market.winning_outcome);
    let loser_balance = ledger.balance_of(!market.winning_outcome);
    let payout = match compute_payout(loser_balance, bet.amount, total_winner) {
        Ok(p) => p,
        Err(e) => {
            return Err(e);
        },
    };
    let share = payout - bet.amount;
    if ledger.paid_out > u64::MAX - payout {
        return Err(ErrorCode::Overflow);
    }
    if winner_balance < bet.amount || loser_balance < share {
        return Err(ErrorCode::InsufficientFunds);
    }
    let debited_stake = ledger.debit(market.winning_outcome, bet.amount);
    match debited_stake {
        Ok(()) => {},
        Err(e) => {
            return Err(e);
        },
    }
    let debited_share = ledger.debit(!market.winning_outcome, share);
    match debited_share {
        Ok(()) => {},
        Err(e) => {
            return Err(e);
        },
    }
    let recorded = ledger.record_payout(payout);
    match recorded {
        Ok(()) => {},
        Err(e) => {
            return Err(e);
        },
    }
    bet.claimed = true;
    Ok(payout)
}

/// At-most-once claim: once a claim has succeeded, every further claim attempt
/// by the owner on the resulting bet reports `AlreadyClaimed`, whatever the
/// pools hold by then.
pub proof fn lemma_claim_at_most_once(
    m: Market,
    b: BetAccount,
    lg: Ledger,
    lg2: Ledger,
    user: u64,
)
    requires
        claim_error(m, b, lg, user) is None,
    ensures
        claim_error(m, bet_after_claim(b), lg2, user) == Some(ErrorCode::AlreadyClaimed),
{
}

} // verus!
