//! Laws of the pool, proved of the functions that say what each operation comes to.

use vstd::prelude::*;
use crate::bank::Bank;
use crate::context::{Borrow, Liquidate, Repay};
use crate::error::ErrorCode;
use crate::ledger::Plan;

verus! {

/// Accruing a second time at the same timestamp changes nothing.
pub proof fn accrual_is_idempotent(bank: Bank, now: i64)
    ensures
        bank.after_accrual(now).after_accrual(now) == bank.after_accrual(now),
        bank.accrued(now) is Some ==> bank.after_accrual(now).accrued(now) == bank.accrued(now),
{
}

/// Accrual never lowers the pool's debt or its deposits: it adds the interest due,
/// which is never negative, to both, and so moves them by the same amount. It never
/// sets the pool's clock back either.
pub proof fn accrual_adds_the_interest_to_both_totals(bank: Bank, now: i64)
    ensures
        bank.interest_due(now) >= 0,
        bank.accrued(now) matches Some(after) ==> {
            &&& after.total_borrowed == bank.total_borrowed + bank.interest_due(now)
            &&& after.total_deposits == bank.total_deposits + bank.interest_due(now)
        },
        bank.after_accrual(now).total_borrowed >= bank.total_borrowed,
        bank.after_accrual(now).total_deposits >= bank.total_deposits,
        bank.after_accrual(now).last_updated >= bank.last_updated,
        bank.after_accrual(now).total_borrowed - bank.total_borrowed == bank.after_accrual(
            now,
        ).total_deposits - bank.total_deposits,
{
    if now > bank.last_updated {
        let elapsed = now - bank.last_updated;
        assert(bank.total_borrowed * bank.interest_rate * elapsed >= 0) by (nonlinear_arith)
            requires
                bank.total_borrowed >= 0,
                bank.interest_rate >= 0,
                elapsed > 0,
        ;
    }
}

/// A loan that brings the debt exactly to the largest value that the collateral
/// backs is granted, where the treasury holds the amount and the pool's debt
/// stays within range.
pub proof fn borrow_at_the_limit_succeeds(ctx: Borrow, amount: u64, now: i64)
    requires
        ctx.bank.accrued(now) matches Some(bank) && bank.total_borrowed + amount <= u64::MAX,
        ctx.max_borrow_value() matches Some(limit) && ctx.user_account.borrowed_amount + amount
            == limit,
        amount <= ctx.bank_token_account.amount,
    ensures
        ctx.plan(amount, now) matches Ok(plan) && ctx.max_borrow_value() == Some(
            plan.user_account.borrowed_amount,
        ),
{
}

/// A loan that brings the debt one unit above the largest value that the
/// collateral backs is refused as over the limit.
pub proof fn borrow_one_past_the_limit_fails(ctx: Borrow, amount: u64, now: i64)
    requires
        ctx.bank.accrued(now) is Some,
        ctx.max_borrow_value() matches Some(limit) && ctx.user_account.borrowed_amount + amount
            == limit + 1,
    ensures
        ctx.plan(amount, now) == Err::<Plan, ErrorCode>(ErrorCode::OverLTV),
{
}

/// A position is refused for liquidation exactly when its debt is not strictly
/// above its liquidation limit; so it is refused when the two are equal.
pub proof fn liquidation_needs_debt_above_the_limit(ctx: Liquidate, amount: u64, now: i64)
    requires
        ctx.bank.accrued(now) is Some,
        ctx.liquidation_limit() is Some,
    ensures
        ctx.liquidation_limit() == Some(ctx.user_account.borrowed_amount) ==> ctx.plan(amount, now)
            == Err::<Plan, ErrorCode>(ErrorCode::NotUndercollateralized),
        ctx.user_account.borrowed_amount <= ctx.liquidation_limit().unwrap() <==> ctx.plan(
            amount,
            now,
        ) == Err::<Plan, ErrorCode>(ErrorCode::NotUndercollateralized),
{
}

/// Repaying more than the position owes is refused.
pub proof fn repay_above_the_debt_fails(ctx: Repay, amount: u64, now: i64)
    requires
        ctx.bank.accrued(now) is Some,
        amount > ctx.user_account.borrowed_amount,
    ensures
        ctx.plan(amount, now) == Err::<Plan, ErrorCode>(ErrorCode::OverRepay),
{
}

/// Repaying exactly what the position owes leaves it without debt, where the
/// pool's own debt is no smaller than the amount.
pub proof fn repay_of_the_whole_debt_clears_it(ctx: Repay, amount: u64, now: i64)
    requires
        ctx.bank.accrued(now) matches Some(bank) && amount <= bank.total_borrowed,
        amount == ctx.user_account.borrowed_amount,
    ensures
        ctx.plan(amount, now) matches Ok(plan) && plan.user_account.borrowed_amount == 0,
{
}

} // verus!
