pub mod claim_winnings;
pub mod create_market;
pub mod place_bet;
pub mod resolve_market;
