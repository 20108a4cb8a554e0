//! Market lifecycle: creation validation, bet gatekeeping, resolve
//! exclusivity.

use prediction_market::instructions::place_bet::MAX_BET_AMOUNT;
use prediction_market::state::market::QUESTION_MAX_LEN;
use prediction_market::state::market::QUESTION_MIN_LEN;
use prediction_market::BetAccount;
use prediction_market::ErrorCode;
use prediction_market::Ledger;
use prediction_market::Market;
use prediction_market::MarketState;
use prediction_market::{claim_winnings, create_market, place_bet, resolve_market};

fn question_of_len(n: usize) -> String {
    "q".repeat(n)
}

fn open_market() -> (Market, Ledger) {
    create_market(7, 1, 10, 1_000, question_of_len(40), 50).expect("creation should succeed")
}

#[test]
fn create_accepts_min_and_max_question_length() {
    assert_eq!(QUESTION_MIN_LEN, 20);
    assert_eq!(QUESTION_MAX_LEN, 400);
    for n in [20, 400] {
        let r = create_market(7, 1, 10, 1_000, question_of_len(n), 50);
        let (m, lg) = r.expect("length inside the bounds must be accepted");
        assert_eq!(m.question.len(), n);
        assert_eq!(m.key, 7);
        assert_eq!(m.authority, 1);
        assert!(m.bet);
        assert!(!m.resolved);
        assert_eq!((m.total_yes, m.total_no, m.fee_collected), (0, 0, 0));
        assert_eq!(lg, Ledger { yes_pool: 0, no_pool: 0, paid_out: 0 });
    }
}

#[test]
fn create_rejects_question_length_outside_bounds() {
    for n in [19, 401] {
        let r = create_market(7, 1, 10, 1_000, question_of_len(n), 50);
        assert_eq!(r.unwrap_err(), ErrorCode::InvalidQuestionLength);
    }
}

#[test]
fn create_rejects_close_time_not_in_future() {
    // Close time at or before the current time.
    let r = create_market(7, 1, 10, 50, question_of_len(40), 50);
    assert_eq!(r.unwrap_err(), ErrorCode::InvalidCloseTime);
    // Close time at or before the creation time.
    let r = create_market(7, 1, 60, 60, question_of_len(40), 50);
    assert_eq!(r.unwrap_err(), ErrorCode::InvalidCloseTime);
}

#[test]
fn place_bet_credits_chosen_side() {
    let (mut m, mut lg) = open_market();
    let bet = place_bet(&mut m, &mut lg, 5, 30, true, 100).expect("open market takes stakes");
    assert_eq!(
        bet,
        BetAccount { user: 5, market: 7, amount: 30, outcome: true, claimed: false }
    );
    assert_eq!((m.total_yes, m.total_no), (30, 0));
    assert_eq!((lg.yes_pool, lg.no_pool), (30, 0));
    let bet2 = place_bet(&mut m, &mut lg, 6, 10, false, 200).expect("open market takes stakes");
    assert_eq!(bet2.outcome, false);
    assert_eq!((m.total_yes, m.total_no), (30, 10));
    assert_eq!((lg.yes_pool, lg.no_pool), (30, 10));
}

#[test]
fn place_bet_after_close_time_fails_and_closes_betting() {
    let (mut m, mut lg) = open_market();
    let r = place_bet(&mut m, &mut lg, 5, 30, true, 1_001);
    assert_eq!(r.unwrap_err(), ErrorCode::BettingClosed);
    assert_eq!((m.total_yes, m.total_no), (0, 0));
    assert_eq!((lg.yes_pool, lg.no_pool), (0, 0));
    assert!(!m.bet, "a lazily detected closure must stick");
    // Even back within the window, the dropped flag keeps betting closed.
    let r = place_bet(&mut m, &mut lg, 5, 30, true, 100);
    assert_eq!(r.unwrap_err(), ErrorCode::BettingClosed);
    assert_eq!((m.total_yes, m.total_no), (0, 0));
}

#[test]
fn place_bet_at_close_time_is_still_accepted() {
    let (mut m, mut lg) = open_market();
    let r = place_bet(&mut m, &mut lg, 5, 30, true, 1_000);
    assert!(r.is_ok());
    assert_eq!(m.total_yes, 30);
}

#[test]
fn place_bet_rejects_amount_outside_policy() {
    let (mut m, mut lg) = open_market();
    let r = place_bet(&mut m, &mut lg, 5, 0, true, 100);
    assert_eq!(r.unwrap_err(), ErrorCode::BetAmountInvalid);
    let r = place_bet(&mut m, &mut lg, 5, MAX_BET_AMOUNT + 1, true, 100);
    assert_eq!(r.unwrap_err(), ErrorCode::BetAmountInvalid);
    assert_eq!((m.total_yes, m.total_no), (0, 0));
    // The bounds themselves are accepted.
    assert!(place_bet(&mut m, &mut lg, 5, 1, true, 100).is_ok());
    assert!(place_bet(&mut m, &mut lg, 6, MAX_BET_AMOUNT, false, 100).is_ok());
}

#[test]
fn place_bet_surfaces_overflow_without_mutation() {
    let (mut m, mut lg) = open_market();
    m.total_yes = u64::MAX - 10;
    lg.yes_pool = u64::MAX - 10;
    let r = place_bet(&mut m, &mut lg, 5, 30, true, 100);
    assert_eq!(r.unwrap_err(), ErrorCode::Overflow);
    assert_eq!(m.total_yes, u64::MAX - 10);
    assert_eq!(lg.yes_pool, u64::MAX - 10);
    assert!(m.bet, "an overflow refusal does not close betting");
}

#[test]
fn resolve_requires_the_stored_authority() {
    let (mut m, mut lg) = open_market();
    let r = resolve_market(&mut m, &mut lg, 2, true, 0);
    assert_eq!(r.unwrap_err(), ErrorCode::Unauthorized);
    assert!(!m.resolved);
}

#[test]
fn resolve_twice_fails_already_resolved() {
    let (mut m, mut lg) = open_market();
    resolve_market(&mut m, &mut lg, 1, true, 0).expect("first resolve succeeds");
    assert!(m.resolved);
    assert!(m.winning_outcome);
    assert!(!m.bet);
    let r = resolve_market(&mut m, &mut lg, 1, false, 0);
    assert_eq!(r.unwrap_err(), ErrorCode::AlreadyResolved);
    assert!(m.winning_outcome, "the first outcome stands");
}

#[test]
fn resolve_checks_the_caller_before_the_resolved_flag() {
    let (mut m, mut lg) = open_market();
    resolve_market(&mut m, &mut lg, 1, true, 0).unwrap();
    // A non-authority retry is refused as unauthorized, not as already
    // resolved: authorship is gated first.
    let r = resolve_market(&mut m, &mut lg, 2, false, 0);
    assert_eq!(r.unwrap_err(), ErrorCode::Unauthorized);
    assert!(m.winning_outcome);
}

#[test]
fn resolve_takes_the_configured_fee_from_the_losing_pool() {
    let (mut m, mut lg) = open_market();
    place_bet(&mut m, &mut lg, 5, 300, true, 100).unwrap();
    place_bet(&mut m, &mut lg, 6, 100, false, 100).unwrap();
    resolve_market(&mut m, &mut lg, 1, true, 20).expect("resolve succeeds");
    assert_eq!(m.fee_collected, 20);
    assert_eq!(lg.no_pool, 80, "the losing pool is debited by the fee");
    assert_eq!(lg.yes_pool, 300, "the winning pool is untouched");
}

#[test]
fn resolve_fee_product_overflow_is_surfaced() {
    let (mut m, mut lg) = open_market();
    lg.no_pool = u64::MAX;
    let r = resolve_market(&mut m, &mut lg, 1, true, 100);
    assert_eq!(r.unwrap_err(), ErrorCode::Overflow);
    assert!(!m.resolved);
    assert_eq!(lg.no_pool, u64::MAX);
}

#[test]
fn betting_is_closed_once_resolved() {
    let (mut m, mut lg) = open_market();
    resolve_market(&mut m, &mut lg, 1, false, 0).unwrap();
    let r = place_bet(&mut m, &mut lg, 5, 30, true, 100);
    assert_eq!(r.unwrap_err(), ErrorCode::BettingClosed);
}

#[test]
fn lifecycle_state_follows_time_and_resolution() {
    let (mut m, mut lg) = open_market();
    assert_eq!(m.lifecycle_state(100), MarketState::Open);
    assert_eq!(m.lifecycle_state(1_000), MarketState::Open);
    assert_eq!(m.lifecycle_state(1_001), MarketState::Closed);
    resolve_market(&mut m, &mut lg, 1, true, 0).unwrap();
    assert_eq!(m.lifecycle_state(100), MarketState::Resolved);
    assert_eq!(m.lifecycle_state(2_000), MarketState::Resolved);
}

#[test]
fn conservation_holds_at_every_step() {
    let conserved = |m: &Market, lg: &Ledger| {
        lg.yes_pool as u128 + lg.no_pool as u128 + lg.paid_out as u128 + m.fee_collected as u128
            == m.total_yes as u128 + m.total_no as u128
    };
    let (mut m, mut lg) = open_market();
    assert!(conserved(&m, &lg));
    let b1 = place_bet(&mut m, &mut lg, 5, 30, true, 100).unwrap();
    assert!(conserved(&m, &lg));
    place_bet(&mut m, &mut lg, 6, 270, true, 100).unwrap();
    assert!(conserved(&m, &lg));
    let b3 = place_bet(&mut m, &mut lg, 8, 100, false, 100).unwrap();
    assert!(conserved(&m, &lg));
    // A failing operation moves nothing.
    let _ = place_bet(&mut m, &mut lg, 9, 0, false, 100);
    assert!(conserved(&m, &lg));
    resolve_market(&mut m, &mut lg, 1, true, 20).unwrap();
    assert!(conserved(&m, &lg));
    let mut b1 = b1;
    claim_winnings(&m, &mut b1, &mut lg, 5).unwrap();
    assert!(conserved(&m, &lg));
    let mut b3 = b3;
    let r = claim_winnings(&m, &mut b3, &mut lg, 8);
    assert_eq!(r.unwrap_err(), ErrorCode::WrongBet);
    assert!(conserved(&m, &lg));
}
