//! The two pool balances a market owns, and the conservation invariant that
//! ties them to the market's cumulative totals.
//!
//! The external balance holder is modelled by plain integers: the yes and no
//! pool balances, and a running total of value paid out to claimants. The fee
//! taken at resolution is recorded on the market itself.

use crate::errors::ErrorCode;
use crate::state::market::Market;
use vstd::prelude::*;

verus! {

/// The balances one market commands. `paid_out` accumulates everything ever
/// credited to claimants, so that conservation can be stated at any instant.
#[derive(Clone, Copy, Debug, PartialEq, Eq, Structural)]
pub struct Ledger {
    /// Current balance of the yes pool.
    pub yes_pool: u64,
    /// Current balance of the no pool.
    pub no_pool: u64,
    /// Cumulative value credited to claimants.
    pub paid_out: u64,
}

/// Conservation: what the pools still hold, plus everything paid out, plus the
/// fee taken at resolution, is exactly the cumulative stake ever placed. Every
/// operation preserves this.
pub open spec fn conserved(m: Market, lg: Ledger) -> bool {
    lg.yes_pool + lg.no_pool + lg.paid_out + m.fee_collected == m.total_yes + m.total_no
}

impl Ledger {
    /// The balance of one side's pool.
    pub open spec fn spec_balance_of(self, side: bool) -> u64 {
        if side {
            self.yes_pool
        } else {
            self.no_pool
        }
    }

    /// Two empty pools and nothing paid out: the state a market is bound to at
    /// creation.
    pub fn new() -> (lg: Ledger)
        ensures
            lg == (Ledger { yes_pool: 0, no_pool: 0, paid_out: 0 }),
    {
        Ledger { yes_pool: 0, no_pool: 0, paid_out: 0 }
    }

    /// Read one pool's balance: true for the yes pool, false for the no pool.
    pub fn balance_of(&self, side: bool) -> (b: u64)
        ensures
            b == self.spec_balance_of(side),
    {
        if side {
            self.yes_pool
        } else {
            self.no_pool
        }
    }

    /// Credit `amount` to one pool, refusing an increment that would not fit.
    /// Nothing changes on failure.
    pub fn credit(&mut self, side: bool, amount: u64) -> (r: Result<(), ErrorCode>)
        ensures
            match r {
                Ok(()) => {
                    &&& old(self).spec_balance_of(side) + amount <= u64::MAX
                    &&& final(self).spec_balance_of(side) == old(self).spec_balance_of(side)
                        + amount
                    &&& final(self).spec_balance_of(!side) == old(self).spec_balance_of(!side)
                    &&& final(self).paid_out == old(self).paid_out
                },
                Err(e) => {
                    &&& e == ErrorCode::Overflow
                    &&& old(self).spec_balance_of(side) + amount > u64::MAX
                    &&& *final(self) == *old(self)
                },
            },
    {
        if side {
            match self.yes_pool.checked_add(amount) {
                Some(b) => {
                    self.yes_pool = b;
                    Ok(())
                },
                None => Err(ErrorCode::Overflow),
            }
        } else {
            match self.no_pool.checked_add(amount) {
                Some(b) => {
                    self.no_pool = b;
                    Ok(())
                },
                None => Err(ErrorCode::Overflow),
            }
        }
    }

    /// Debit `amount` from one pool, refusing a debit the balance cannot cover.
    /// Nothing changes on failure.
    pub fn debit(&mut self, side: bool, amount: u64) -> (r: Result<(), ErrorCode>)
        ensures
            match r {
                Ok(()) => {
                    &&& amount <= old(self).spec_balance_of(side)
                    &&& final(self).spec_balance_of(side) == old(self).spec_balance_of(side)
                        - amount
                    &&& final(self).spec_balance_of(!side) == old(self).spec_balance_of(!side)
                    &&& final(self).paid_out == old(self).paid_out
                },
                Err(e) => {
                    &&& e == ErrorCode::InsufficientFunds
                    &&& amount > old(self).spec_balance_of(side)
                    &&& *final(self) == *old(self)
                },
            },
    {
        if side {
            if amount <= self.yes_pool {
                self.yes_pool = self.yes_pool - amount;
                Ok(())
            } else {
                Err(ErrorCode::InsufficientFunds)
            }
        } else {
            if amount <= self.no_pool {
                self.no_pool = self.no_pool - amount;
                Ok(())
            } else {
                Err(ErrorCode::InsufficientFunds)
            }
        }
    }

    /// Record `amount` as credited to a claimant, refusing an increment that
    /// would not fit. Nothing changes on failure.
    pub fn record_payout(&mut self, amount: u64) -> (r: Result<(), ErrorCode>)
        ensures
            match r {
                Ok(()) => {
                    &&& old(self).paid_out + amount <= u64::MAX
                    &&& *final(self) == (Ledger { paid_out: (old(self).paid_out + amount) as u64, ..*old(self) })
                },
                Err(e) => {
                    &&& e == ErrorCode::Overflow
                    &&& old(self).paid_out + amount > u64::MAX
                    &&& *final(self) == *old(self)
                },
            },
    {
        match self.paid_out.checked_add(amount) {
            Some(p) => {
                self.paid_out = p;
                Ok(())
            },
            None => Err(ErrorCode::Overflow),
        }
    }
}

} // verus!
