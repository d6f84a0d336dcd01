//! The operations of the pool.
//!
//! `init_bank`, `init_price_feed` and `set_price` write their record at once. The
//! four that move funds (`deposit`, `borrow`, `repay`, `liquidate`) first accrue
//! interest, then check everything that can be checked, and change nothing: they
//! hand back the transfers to make and the records to store once those are made.
//! Every check, those on the new balances too, comes before the first transfer, so
//! a refused operation has moved no funds.

use vstd::prelude::*;
use crate::account::{PriceFeed, UserAccount};
use crate::bank::Bank;
use crate::context::{Borrow, Deposit, InitBank, InitPriceFeed, Liquidate, Repay, SetPrice};
use crate::error::ErrorCode;
use crate::ledger::{Authority, Pending, Plan, Transfer};

verus! {

/// Opens the pool at `now`: no deposits, no debt, the caller as its authority.
pub fn init_bank(
    ctx: &mut InitBank,
    liquidation_threshold: u64,
    max_ltv: u64,
    interest_rate: u64,
    now: i64,
) -> (r: Result<(), ErrorCode>)
    ensures
        r is Ok,
        *final(ctx) == (InitBank {
            bank: old(ctx).opened(liquidation_threshold, max_ltv, interest_rate, now),
            ..*old(ctx)
        }),
{
    ctx.bank.authority = ctx.signer;
    ctx.bank.mint = ctx.mint;
    ctx.bank.bank_token_account = ctx.bank_token_account.key;
    ctx.bank.total_deposits = 0;
    ctx.bank.total_borrowed = 0;
    ctx.bank.liquidation_threshold = liquidation_threshold;
    ctx.bank.max_ltv = max_ltv;
    ctx.bank.interest_rate = interest_rate;
    ctx.bank.last_updated = now;
    Ok(())
}

/// Prepares a deposit of `amount` at `now`.
pub fn deposit(ctx: &Deposit, amount: u64, now: i64) -> (r: Result<Pending, ErrorCode>)
    ensures
        match r {
            Ok(pending) => ctx.plan(amount, now) == Ok::<Plan, ErrorCode>(pending@),
            Err(e) => ctx.plan(amount, now) == Err::<Plan, ErrorCode>(e),
        },
{
    let mut bank: Bank = ctx.bank;
    bank.process_interest(now)?;
    let mut user_account: UserAccount = ctx.user_account;
    bank.total_deposits = bank.total_deposits.checked_add(amount).ok_or(ErrorCode::MathOverflow)?;
    user_account.deposit_amount = user_account.deposit_amount.checked_add(amount).ok_or(
        ErrorCode::MathOverflow,
    )?;
    if user_account.owner.is_unset() {
        user_account.owner = ctx.signer;
    }
    let transfers: Vec<Transfer> = vec![
        Transfer {
            from: ctx.user_token_account.key,
            to: ctx.bank_token_account.key,
            amount,
            authority: Authority::Signer(ctx.signer),
        },
    ];
    assert(transfers@ =~= seq![ctx.payment(amount)]);
    Ok(Pending { bank, user_account, transfers })
}

/// Prepares a loan of `amount` at `now`.
pub fn borrow(ctx: &Borrow, amount: u64, now: i64) -> (r: Result<Pending, ErrorCode>)
    ensures
        match r {
            Ok(pending) => ctx.plan(amount, now) == Ok::<Plan, ErrorCode>(pending@),
            Err(e) => ctx.plan(amount, now) == Err::<Plan, ErrorCode>(e),
        },
{
    let mut bank: Bank = ctx.bank;
    bank.process_interest(now)?;
    let mut user_account: UserAccount = ctx.user_account;
    let max_borrow_value: u64 = user_account.collateral_limit(
        ctx.price_feed.price,
        bank.max_ltv,
    ).ok_or(ErrorCode::MathOverflow)?;
    let current_borrow_value: u64 = user_account.borrowed_amount.checked_add(amount).ok_or(
        ErrorCode::MathOverflow,
    )?;
    if current_borrow_value > max_borrow_value {
        return Err(ErrorCode::OverLTV);
    }
    if amount > ctx.bank_token_account.amount {
        return Err(ErrorCode::InsufficientFunds);
    }
    bank.total_borrowed = bank.total_borrowed.checked_add(amount).ok_or(ErrorCode::MathOverflow)?;
    user_account.borrowed_amount = current_borrow_value;
    let transfers: Vec<Transfer> = vec![
        Transfer {
            from: ctx.bank_token_account.key,
            to: ctx.user_token_account.key,
            amount,
            authority: Authority::Bank { mint: ctx.mint, bump: ctx.bank_bump },
        },
    ];
    assert(transfers@ =~= seq![ctx.payout(amount)]);
    Ok(Pending { bank, user_account, transfers })
}

/// Prepares a repayment of `amount` at `now`.
pub fn repay(ctx: &Repay, amount: u64, now: i64) -> (r: Result<Pending, ErrorCode>)
    ensures
        match r {
            Ok(pending) => ctx.plan(amount, now) == Ok::<Plan, ErrorCode>(pending@),
            Err(e) => ctx.plan(amount, now) == Err::<Plan, ErrorCode>(e),
        },
{
    let mut bank: Bank = ctx.bank;
    bank.process_interest(now)?;
    let mut user_account: UserAccount = ctx.user_account;
    if amount > user_account.borrowed_amount {
        return Err(ErrorCode::OverRepay);
    }
    user_account.borrowed_amount = user_account.borrowed_amount - amount;
    bank.total_borrowed = bank.total_borrowed.checked_sub(amount).ok_or(ErrorCode::MathOverflow)?;
    let transfers: Vec<Transfer> = vec![
        Transfer {
            from: ctx.user_token_account.key,
            to: ctx.bank_token_account.key,
            amount,
            authority: Authority::Signer(ctx.signer),
        },
    ];
    assert(transfers@ =~= seq![ctx.payment(amount)]);
    Ok(Pending { bank, user_account, transfers })
}

/// Fills a new price feed. The caller becomes its authority.
pub fn init_price_feed(ctx: &mut InitPriceFeed, price: u64, decimals: u8) -> (r: Result<
    (),
    ErrorCode,
>)
    ensures
        r is Ok,
        *final(ctx) == (InitPriceFeed {
            price_feed: PriceFeed { price, decimals, authority: old(ctx).signer },
            ..*old(ctx)
        }),
{
    ctx.price_feed.price = price;
    ctx.price_feed.decimals = decimals;
    ctx.price_feed.authority = ctx.signer;
    Ok(())
}

/// Replaces the price, for the feed's authority and for nobody else. No bound or
/// age is checked: whoever reads the feed trusts its authority.
pub fn set_price(ctx: &mut SetPrice, price: u64) -> (r: Result<(), ErrorCode>)
    ensures
        old(ctx).authority == old(ctx).price_feed.authority ==> r is Ok && *final(ctx)
            == (SetPrice { price_feed: PriceFeed { price, ..old(ctx).price_feed }, ..*old(ctx) }),
        old(ctx).authority != old(ctx).price_feed.authority ==> r == Err::<(), ErrorCode>(
            ErrorCode::AuthorizationError,
        ) && *final(ctx) == *old(ctx),
{
    if ctx.authority != ctx.price_feed.authority {
        return Err(ErrorCode::AuthorizationError);
    }
    ctx.price_feed.price = price;
    Ok(())
}

/// Prepares a liquidation of `amount` at `now`.
pub fn liquidate(ctx: &Liquidate, amount: u64, now: i64) -> (r: Result<Pending, ErrorCode>)
    ensures
        match r {
            Ok(pending) => ctx.plan(amount, now) == Ok::<Plan, ErrorCode>(pending@),
            Err(e) => ctx.plan(amount, now) == Err::<Plan, ErrorCode>(e),
        },
{
    let mut bank: Bank = ctx.bank;
    bank.process_interest(now)?;
    let mut user_account: UserAccount = ctx.user_account;
    let liquidation_limit: u64 = user_account.collateral_limit(
        ctx.price_feed.price,
        bank.liquidation_threshold,
    ).ok_or(ErrorCode::MathOverflow)?;
    if user_account.borrowed_amount <= liquidation_limit {
        return Err(ErrorCode::NotUndercollateralized);
    }
    user_account.borrowed_amount = user_account.borrowed_amount.checked_sub(amount).ok_or(
        ErrorCode::MathOverflow,
    )?;
    user_account.deposit_amount = user_account.deposit_amount.checked_sub(amount).ok_or(
        ErrorCode::MathOverflow,
    )?;
    bank.total_borrowed = bank.total_borrowed.checked_sub(amount).ok_or(ErrorCode::MathOverflow)?;
    bank.total_deposits = bank.total_deposits.checked_sub(amount).ok_or(ErrorCode::MathOverflow)?;
    let transfers: Vec<Transfer> = vec![
        Transfer {
            from: ctx.liquidator_token_account.key,
            to: ctx.bank_token_account.key,
            amount,
            authority: Authority::Signer(ctx.liquidator),
        },
        Transfer {
            from: ctx.bank_token_account.key,
            to: ctx.liquidator_token_account.key,
            amount,
            authority: Authority::Bank { mint: ctx.mint, bump: ctx.bank_bump },
        },
    ];
    assert(transfers@ =~= seq![ctx.repayment(amount), ctx.seizure(amount)]);
    Ok(Pending { bank, user_account, transfers })
}

} // verus!
