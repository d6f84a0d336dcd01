//! What each operation is given: the records it works on and the identities of
//! the holdings involved, as plain values. Each context says, as a mathematical
//! function, what its operation comes to.

use vstd::prelude::*;
use crate::account::{PriceFeed, TokenAccount, UserAccount};
use crate::address::Address;
use crate::bank::Bank;
use crate::error::ErrorCode;
use crate::ledger::{Authority, Plan, Transfer};

verus! {

/// Opening a pool.
#[derive(Clone, Copy, Debug, PartialEq, Eq)]
pub struct InitBank {
    /// The record to fill.
    pub bank: Bank,
    /// The asset of the pool.
    pub mint: Address,
    /// The treasury that will hold the pooled asset.
    pub bank_token_account: TokenAccount,
    /// Who opens the pool.
    pub signer: Address,
}

/// Adding collateral.
#[derive(Clone, Copy, Debug, PartialEq, Eq)]
pub struct Deposit {
    /// The depositor.
    pub signer: Address,
    pub bank: Bank,
    /// The pool's treasury.
    pub bank_token_account: TokenAccount,
    /// The depositor's own holding.
    pub user_token_account: TokenAccount,
    /// The depositor's position.
    pub user_account: UserAccount,
}

/// Taking a loan against one's collateral.
#[derive(Clone, Copy, Debug, PartialEq, Eq)]
pub struct Borrow {
    pub bank: Bank,
    /// The pool's treasury, with what it holds now.
    pub bank_token_account: TokenAccount,
    /// The asset of the pool.
    pub mint: Address,
    /// The borrower's own holding.
    pub user_token_account: TokenAccount,
    pub price_feed: PriceFeed,
    /// The borrower's position.
    pub user_account: UserAccount,
    /// The borrower.
    pub signer: Address,
    /// The bump of the pool's signing seeds.
    pub bank_bump: u8,
}

/// Paying a loan back.
#[derive(Clone, Copy, Debug, PartialEq, Eq)]
pub struct Repay {
    /// The one who repays.
    pub signer: Address,
    pub bank: Bank,
    /// The pool's treasury.
    pub bank_token_account: TokenAccount,
    /// The payer's own holding.
    pub user_token_account: TokenAccount,
    /// The position whose debt is paid.
    pub user_account: UserAccount,
}

/// Creating a price feed.
#[derive(Clone, Copy, Debug, PartialEq, Eq)]
pub struct InitPriceFeed {
    /// The record to fill.
    pub price_feed: PriceFeed,
    /// Who creates the feed, and will be its authority.
    pub signer: Address,
}

/// Setting the price.
#[derive(Clone, Copy, Debug, PartialEq, Eq)]
pub struct SetPrice {
    pub price_feed: PriceFeed,
    /// The caller, who claims to be the feed's authority.
    pub authority: Address,
}

/// Taking over part of an under-collateralised position.
#[derive(Clone, Copy, Debug, PartialEq, Eq)]
pub struct Liquidate {
    pub bank: Bank,
    /// The pool's treasury.
    pub bank_token_account: TokenAccount,
    /// The asset of the pool.
    pub mint: Address,
    /// The liquidator's own holding.
    pub liquidator_token_account: TokenAccount,
    pub liquidator: Address,
    /// The position that is liquidated.
    pub user_account: UserAccount,
    pub price_feed: PriceFeed,
    /// The bump of the pool's signing seeds.
    pub bank_bump: u8,
}

impl InitBank {
    /// The pool as it is opened at `now`: empty, with the given risk parameters.
    pub open spec fn opened(
        self,
        liquidation_threshold: u64,
        max_ltv: u64,
        interest_rate: u64,
        now: i64,
    ) -> Bank {
        Bank {
            authority: self.signer,
            total_deposits: 0,
            total_borrowed: 0,
            mint: self.mint,
            bank_token_account: self.bank_token_account.key,
            liquidation_threshold,
            max_ltv,
            interest_rate,
            last_updated: now,
        }
    }
}

impl Deposit {
    /// The depositor pays `amount` into the treasury.
    pub open spec fn payment(self, amount: u64) -> Transfer {
        Transfer {
            from: self.user_token_account.key,
            to: self.bank_token_account.key,
            amount,
            authority: Authority::Signer(self.signer),
        }
    }

    /// What a deposit of `amount` at `now` comes to. Interest is accrued first.
    /// Then the pool's deposits and the position's collateral both grow by
    /// `amount`, and a position without an owner becomes the depositor's. No
    /// limit is checked: a deposit only adds collateral.
    pub open spec fn plan(self, amount: u64, now: i64) -> Result<Plan, ErrorCode> {
        match self.bank.accrued(now) {
            None => Err(ErrorCode::MathOverflow),
            Some(bank) => if bank.total_deposits + amount > u64::MAX
                || self.user_account.deposit_amount + amount > u64::MAX {
                Err(ErrorCode::MathOverflow)
            } else {
                Ok(
                    Plan {
                        bank: Bank {
                            total_deposits: (bank.total_deposits + amount) as u64,
                            ..bank
                        },
                        user_account: UserAccount {
                            deposit_amount: (self.user_account.deposit_amount + amount) as u64,
                            owner: if self.user_account.owner.is_unset() {
                                self.signer
                            } else {
                                self.user_account.owner
                            },
                            ..self.user_account
                        },
                        transfers: seq![self.payment(amount)],
                    },
                )
            },
        }
    }
}

impl Borrow {
    /// The treasury pays `amount` out to the borrower, on the pool's own authority.
    pub open spec fn payout(self, amount: u64) -> Transfer {
        Transfer {
            from: self.bank_token_account.key,
            to: self.user_token_account.key,
            amount,
            authority: Authority::Bank { mint: self.mint, bump: self.bank_bump },
        }
    }

    /// The largest debt that the position's collateral backs: the share `max_ltv`
    /// of its value, and its value is the deposited amount times the feed's price.
    /// `None` where that leaves the 64-bit range.
    pub open spec fn max_borrow_value(self) -> Option<u64> {
        self.user_account.collateral_limit(self.price_feed.price, self.bank.max_ltv)
    }

    /// What a loan of `amount` at `now` comes to. Interest is accrued first. The
    /// debt with the loan added must stay within `max_borrow_value`, and the
    /// treasury must hold `amount`. Then the pool's and the position's debt both
    /// grow by `amount`.
    pub open spec fn plan(self, amount: u64, now: i64) -> Result<Plan, ErrorCode> {
        match self.bank.accrued(now) {
            None => Err(ErrorCode::MathOverflow),
            Some(bank) => match self.max_borrow_value() {
                None => Err(ErrorCode::MathOverflow),
                Some(limit) => if self.user_account.borrowed_amount + amount > u64::MAX {
                    Err(ErrorCode::MathOverflow)
                } else if self.user_account.borrowed_amount + amount > limit {
                    Err(ErrorCode::OverLTV)
                } else if amount > self.bank_token_account.amount {
                    Err(ErrorCode::InsufficientFunds)
                } else if bank.total_borrowed + amount > u64::MAX {
                    Err(ErrorCode::MathOverflow)
                } else {
                    Ok(
                        Plan {
                            bank: Bank {
                                total_borrowed: (bank.total_borrowed + amount) as u64,
                                ..bank
                            },
                            user_account: UserAccount {
                                borrowed_amount: (self.user_account.borrowed_amount
                                    + amount) as u64,
                                ..self.user_account
                            },
                            transfers: seq![self.payout(amount)],
                        },
                    )
                },
            },
        }
    }
}

impl Repay {
    /// The payer pays `amount` into the treasury.
    pub open spec fn payment(self, amount: u64) -> Transfer {
        Transfer {
            from: self.user_token_account.key,
            to: self.bank_token_account.key,
            amount,
            authority: Authority::Signer(self.signer),
        }
    }

    /// What a repayment of `amount` at `now` comes to. Interest is accrued first.
    /// No more than the position's debt can be repaid. Then the position's and
    /// the pool's debt both shrink by `amount`.
    pub open spec fn plan(self, amount: u64, now: i64) -> Result<Plan, ErrorCode> {
        match self.bank.accrued(now) {
            None => Err(ErrorCode::MathOverflow),
            Some(bank) => if amount > self.user_account.borrowed_amount {
                Err(ErrorCode::OverRepay)
            } else if amount > bank.total_borrowed {
                Err(ErrorCode::MathOverflow)
            } else {
                Ok(
                    Plan {
                        bank: Bank {
                            total_borrowed: (bank.total_borrowed - amount) as u64,
                            ..bank
                        },
                        user_account: UserAccount {
                            borrowed_amount: (self.user_account.borrowed_amount - amount) as u64,
                            ..self.user_account
                        },
                        transfers: seq![self.payment(amount)],
                    },
                )
            },
        }
    }
}

impl Liquidate {
    /// The liquidator pays `amount` of the debt into the treasury.
    pub open spec fn repayment(self, amount: u64) -> Transfer {
        Transfer {
            from: self.liquidator_token_account.key,
            to: self.bank_token_account.key,
            amount,
            authority: Authority::Signer(self.liquidator),
        }
    }

    /// The treasury hands `amount` of the collateral to the liquidator, on the
    /// pool's own authority.
    pub open spec fn seizure(self, amount: u64) -> Transfer {
        Transfer {
            from: self.bank_token_account.key,
            to: self.liquidator_token_account.key,
            amount,
            authority: Authority::Bank { mint: self.mint, bump: self.bank_bump },
        }
    }

    /// The debt above which the position can be liquidated: the share
    /// `liquidation_threshold` of its collateral's value at the feed's price.
    /// `None` where that leaves the 64-bit range.
    pub open spec fn liquidation_limit(self) -> Option<u64> {
        self.user_account.collateral_limit(self.price_feed.price, self.bank.liquidation_threshold)
    }

    /// What a liquidation of `amount` at `now` comes to. Interest is accrued
    /// first. The position's debt must be strictly above `liquidation_limit`.
    /// The liquidator repays `amount` and receives `amount` of the collateral,
    /// one for one. Then debt and collateral, of the position and of the pool,
    /// all shrink by `amount`; none of the four may fall below zero.
    pub open spec fn plan(self, amount: u64, now: i64) -> Result<Plan, ErrorCode> {
        match self.bank.accrued(now) {
            None => Err(ErrorCode::MathOverflow),
            Some(bank) => match self.liquidation_limit() {
                None => Err(ErrorCode::MathOverflow),
                Some(limit) => if self.user_account.borrowed_amount <= limit {
                    Err(ErrorCode::NotUndercollateralized)
                } else if amount > self.user_account.borrowed_amount || amount
                    > self.user_account.deposit_amount || amount > bank.total_borrowed || amount
                    > bank.total_deposits {
                    Err(ErrorCode::MathOverflow)
                } else {
                    Ok(
                        Plan {
                            bank: Bank {
                                total_borrowed: (bank.total_borrowed - amount) as u64,
                                total_deposits: (bank.total_deposits - amount) as u64,
                                ..bank
                            },
                            user_account: UserAccount {
                                borrowed_amount: (self.user_account.borrowed_amount
                                    - amount) as u64,
                                deposit_amount: (self.user_account.deposit_amount - amount) as u64,
                                ..self.user_account
                            },
                            transfers: seq![self.repayment(amount), self.seizure(amount)],
                        },
                    )
                },
            },
        }
    }
}

} // verus!
