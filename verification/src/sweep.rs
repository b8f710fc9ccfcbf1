//! Decision procedure of the balance-sweep engine.
//!
//! Each tick the engine learns the current fee unit price and the sender's
//! balance, both in the chain's smallest denomination, and decides whether
//! to move the balance net of fee to the fixed recipient. The threshold
//! comparison against the configured reserve happens in display units at
//! the caller; the decision here takes its boolean outcome, so that every
//! amount that reaches a transaction is computed in integer arithmetic.

use vstd::prelude::*;

use crate::errors::SweepError;

verus! {

/// Gas needed by a plain value transfer; fixed by the transaction shape.
pub const GAS_LIMIT: u128 = 21000;

/// Why a tick decided not to sweep.
#[derive(Clone, Copy, Debug, PartialEq, Eq, Structural)]
pub enum SkipReason {
    /// The display-unit balance sat below the configured reserve.
    BelowReserve,
    /// The balance would not cover more than the fee itself.
    InsufficientForFee,
}

/// Outcome of one tick's decision: either skip with a reason, or submit a
/// transfer of the given amount in smallest units.
#[derive(Clone, Copy, Debug, PartialEq, Eq, Structural)]
pub enum SweepDecision {
    Skip(SkipReason),
    Submit(u128),
}

/// Total fee cost of one sweep transaction, when it fits the integer width.
pub open spec fn total_cost_of(unit_price: u128) -> Option<u128> {
    if unit_price * GAS_LIMIT <= u128::MAX {
        Some((unit_price * GAS_LIMIT) as u128)
    } else {
        None
    }
}

/// Computes `unit_price * GAS_LIMIT` with a checked multiplication.
/// An overflow is a safe failure, never a wrapped value.
pub fn compute_total_cost(unit_price: u128) -> (r: Result<u128, SweepError>)
    ensures
        total_cost_of(unit_price) matches Some(c) ==> r == Ok::<u128, SweepError>(c),
        total_cost_of(unit_price) is None ==> r == Err::<u128, SweepError>(SweepError::Arithmetic),
{
    match unit_price.checked_mul(GAS_LIMIT) {
        Some(cost) => Ok(cost),
        None => Err(SweepError::Arithmetic),
    }
}

/// The sweep decision as a function of the reserve comparison, the balance
/// and the total fee cost, all from the same tick.
pub open spec fn sweep_decision(below_reserve: bool, balance: u128, total_cost: u128) -> SweepDecision {
    if below_reserve {
        SweepDecision::Skip(SkipReason::BelowReserve)
    } else if balance <= total_cost {
        SweepDecision::Skip(SkipReason::InsufficientForFee)
    } else {
        SweepDecision::Submit((balance - total_cost) as u128)
    }
}

/// Decides one tick from the queried values. The reserve comparison is
/// checked first, so a balance below the reserve skips whatever the fee
/// is; a sweep is submitted only when the balance strictly exceeds the
/// fee cost, and then for exactly the balance minus that cost. The
/// subtraction is checked rather than assumed, even though the preceding
/// comparison makes an underflow unreachable.
pub fn decide_sweep(below_reserve: bool, balance: u128, total_cost: u128) -> (d: SweepDecision)
    ensures
        d == sweep_decision(below_reserve, balance, total_cost),
{
    if below_reserve {
        return SweepDecision::Skip(SkipReason::BelowReserve);
    }
    if balance <= total_cost {
        return SweepDecision::Skip(SkipReason::InsufficientForFee);
    }
    match balance.checked_sub(total_cost) {
        Some(amount) => SweepDecision::Submit(amount),
        None => SweepDecision::Skip(SkipReason::InsufficientForFee),
    }
}

/// One tick's whole computation: fee cost from the unit price, then the
/// decision against the balance. Fails only when the fee multiplication
/// overflows; every other input yields the decision of `sweep_decision`.
pub fn plan_sweep(unit_price: u128, balance: u128, below_reserve: bool) -> (r: Result<
    SweepDecision,
    SweepError,
>)
    ensures
        total_cost_of(unit_price) matches Some(c) ==> r == Ok::<SweepDecision, SweepError>(
            sweep_decision(below_reserve, balance, c),
        ),
        total_cost_of(unit_price) is None ==> r == Err::<SweepDecision, SweepError>(
            SweepError::Arithmetic,
        ),
{
    let total_cost = match compute_total_cost(unit_price) {
        Ok(c) => c,
        Err(e) => {
            return Err(e);
        },
    };
    Ok(decide_sweep(below_reserve, balance, total_cost))
}

/// One tick's evaluation from the outcomes of the two queries, keeping
/// their order: the fee quote is examined first, its cost is checked for
/// overflow next, and only then is the balance read consulted, so a tick
/// that could not learn the fee never reports anything about the balance.
/// `None` stands for a query the chain client could not answer.
pub fn evaluate_tick(fee_quote: Option<u128>, balance_read: Option<u128>, below_reserve: bool) -> (r:
    Result<SweepDecision, SweepError>)
    ensures
        fee_quote is None ==> r == Err::<SweepDecision, SweepError>(SweepError::FeeQuery),
        fee_quote matches Some(p) ==> (total_cost_of(p) is None ==> r == Err::<
            SweepDecision,
            SweepError,
        >(SweepError::Arithmetic)),
        fee_quote matches Some(p) ==> (total_cost_of(p) is Some && balance_read is None ==> r
            == Err::<SweepDecision, SweepError>(SweepError::BalanceQuery)),
        fee_quote matches Some(p) ==> (total_cost_of(p) matches Some(c) ==> (balance_read matches
            Some(b) ==> r == Ok::<SweepDecision, SweepError>(
            sweep_decision(below_reserve, b, c),
        ))),
{
    let unit_price = match fee_quote {
        Some(p) => p,
        None => {
            return Err(SweepError::FeeQuery);
        },
    };
    let total_cost = match compute_total_cost(unit_price) {
        Ok(c) => c,
        Err(e) => {
            return Err(e);
        },
    };
    let balance = match balance_read {
        Some(b) => b,
        None => {
            return Err(SweepError::BalanceQuery);
        },
    };
    Ok(decide_sweep(below_reserve, balance, total_cost))
}

/// Outcome of the confirmation wait. The chain client reports either the
/// block the transaction was mined in, or that it never reached the
/// confirmation depth (dropped or replaced); the latter is the
/// `Confirmation` error, reported but non-fatal — the next tick
/// re-evaluates from a fresh balance.
pub fn confirm_receipt(mined_block: Option<u64>) -> (r: Result<u64, SweepError>)
    ensures
        mined_block matches Some(b) ==> r == Ok::<u64, SweepError>(b),
        mined_block is None ==> r == Err::<u64, SweepError>(SweepError::Confirmation),
{
    match mined_block {
        Some(block) => Ok(block),
        None => Err(SweepError::Confirmation),
    }
}

/// Whether an execution receipt reports success: a status of exactly one.
pub fn receipt_status_ok(status: Option<u64>) -> (ok: bool)
    ensures
        ok <==> status == Some(1u64),
{
    match status {
        Some(s) => s == 1,
        None => false,
    }
}

/// Law: a balance below the reserve always skips for that reason, whatever
/// the fee cost of the tick is.
pub proof fn lemma_below_reserve_skips(balance: u128, total_cost: u128)
    ensures
        sweep_decision(true, balance, total_cost) == SweepDecision::Skip(SkipReason::BelowReserve),
{
}

/// Law: when the reserve is met and the balance strictly exceeds the fee
/// cost, the swept amount is exactly the balance minus that cost, in
/// integer arithmetic — amount and cost sum back to the balance with no
/// rounding anywhere.
pub proof fn lemma_submit_amount_exact(balance: u128, total_cost: u128)
    requires
        total_cost < balance,
    ensures
        sweep_decision(false, balance, total_cost) == SweepDecision::Submit(
            (balance - total_cost) as u128,
        ),
        (balance - total_cost) as u128 + total_cost == balance,
{
}

/// Law: when the balance does not strictly exceed the fee cost, the tick
/// skips — for the fee reason once the reserve is met — and no submission
/// happens for either reserve outcome, so a transfer of exactly the fee
/// cost or less is never attempted.
pub proof fn lemma_insufficient_never_submits(balance: u128, total_cost: u128)
    requires
        balance <= total_cost,
    ensures
        sweep_decision(false, balance, total_cost) == SweepDecision::Skip(
            SkipReason::InsufficientForFee,
        ),
        forall|below_reserve: bool|
            !((#[trigger] sweep_decision(below_reserve, balance, total_cost)) is Submit),
{
}

} // verus!
