//! Accounting and risk engine of a single-asset lending pool.
//!
//! The pool tracks what is deposited and what is lent of one asset, accrues
//! interest over time, limits each loan by the value of the borrower's collateral,
//! and lets under-collateralised positions be liquidated. It keeps the books and
//! moves no funds: an operation that moves funds comes back as the list of
//! transfers to make, and is settled with the token ledger's answer.
//!
//! Time is an argument. Interest accrues as the first step of each operation that
//! moves funds, and at no other moment.

pub mod account;
pub mod address;
pub mod bank;
pub mod context;
pub mod error;
pub mod instructions;
pub mod laws;
pub mod ledger;

pub use account::{PriceFeed, TokenAccount, UserAccount};
pub use address::Address;
pub use bank::{Bank, BASIS_POINTS, SECONDS_PER_YEAR};
pub use context::{Borrow, Deposit, InitBank, InitPriceFeed, Liquidate, Repay, SetPrice};
pub use error::ErrorCode;
pub use instructions::{
    borrow, deposit, init_bank, init_price_feed, liquidate, repay, set_price,
};
pub use ledger::{Authority, Pending, Transfer};
