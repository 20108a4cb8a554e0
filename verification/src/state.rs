pub mod bet;
pub mod ledger;
pub mod market;
