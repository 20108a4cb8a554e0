//! Create: validate the question and the close time, then allocate an open
//! market with zero totals, bound to two empty pools.

use crate::errors::ErrorCode;
use crate::state::ledger::conserved;
use crate::state::ledger::Ledger;
use crate::state::market::question_len_ok;
use crate::state::market::Market;
use crate::state::market::QUESTION_MAX_LEN;
use crate::state::market::QUESTION_MIN_LEN;
use vstd::prelude::*;
use vstd::string::StrSliceExecFns;

verus! {

/// Why a create call is refused, or `None` when it succeeds: the question
/// length is checked first, then that the close time lies strictly after both
/// the creation time and the current time.
pub open spec fn create_error(
    question: Seq<char>,
    created_at: int,
    close_time: int,
    now: int,
) -> Option<ErrorCode> {
    if !question_len_ok(question) {
        Some(ErrorCode::InvalidQuestionLength)
    } else if !(close_time > now && close_time > created_at) {
        Some(ErrorCode::InvalidCloseTime)
    } else {
        None
    }
}

/// Create a market.
///
/// On success the market is open with zero totals, unresolved, with no fee
/// collected, and its ledger holds two empty pools; the inputs are stored
/// unchanged. On failure nothing is allocated, and the error says which input
/// was malformed.
pub fn create_market(
    key: u64,
    authority: u64,
    created_at: i64,
    close_time: i64,
    question: String,
    now: i64,
) -> (r: Result<(Market, Ledger), ErrorCode>)
    ensures
        match r {
            Ok((m, lg)) => {
                &&& create_error(question@, created_at as int, close_time as int, now as int)
                    is None
                &&& m.key == key
                &&& m.authority == authority
                &&& m.bet == true
                &&& m.created_at == created_at
                &&& m.close_time == close_time
                &&& m.question@ == question@
                &&& m.total_yes == 0
                &&& m.total_no == 0
                &&& m.resolved == false
                &&& m.winning_outcome == false
                &&& m.fee_collected == 0
                &&& lg == (Ledger { yes_pool: 0, no_pool: 0, paid_out: 0 })
                &&& m.well_formed()
                &&& conserved(m, lg)
            },
            Err(e) => create_error(question@, created_at as int, close_time as int, now as int)
                == Some(e),
        },
{
    let qlen = question.as_str().unicode_len();
    if qlen < QUESTION_MIN_LEN || qlen > QUESTION_MAX_LEN {
        return Err(ErrorCode::InvalidQuestionLength);
    }
    if close_time <= now || close_time <= created_at {
        return Err(ErrorCode::InvalidCloseTime);
    }
    let market = Market {
        key,
        authority,
        bet: true,
        created_at,
        close_time,
        question,
        total_yes: 0,
        total_no: 0,
        resolved: false,
        winning_outcome: false,
        fee_collected: 0,
    };
    Ok((market, Ledger::new()))
}

} // verus!
