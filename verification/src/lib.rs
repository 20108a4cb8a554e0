//! A binary-outcome pari-mutuel betting market.
//!
//! Participants stake value on the "yes" or "no" side of a question before a
//! fixed close time; an authority then resolves the outcome, optionally taking
//! a fee from the losing pool, and each winning bet claims its own stake back
//! plus a proportional share of the losing pool.
//!
//! The crate holds the market lifecycle state machine, the entity invariants
//! and the integer-exact settlement arithmetic. Balances live in a [`state::ledger::Ledger`]
//! value of plain integers; identities and account keys are plain integers as
//! well, and the current time is handed in by the caller at each entry point.
//! Custody, signature verification and storage keying belong to the
//! surrounding runtime.

pub mod errors;
pub mod events;
pub mod instructions;
pub mod settlement;
pub mod state;

pub use errors::ErrorCode;
pub use events::BetPlaced;
pub use events::MarketCreated;
pub use events::MarketResolved;
pub use events::WinningsClaimed;
pub use instructions::claim_winnings::claim_winnings;
pub use instructions::create_market::create_market;
pub use instructions::place_bet::place_bet;
pub use instructions::resolve_market::resolve_market;
pub use state::bet::BetAccount;
pub use state::ledger::Ledger;
pub use state::market::Market;
pub use state::market::MarketState;
