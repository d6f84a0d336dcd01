//! The records kept beside the pool: a user's position, the price feed, and what
//! the engine reads of a token account.

use vstd::prelude::*;
use crate::address::Address;

verus! {

/// One user's balances against the pool, in raw units of the asset: amounts, not
/// shares. The pool's interest is not spread over the positions, and nothing in a
/// position says which pool it belongs to: whoever stores positions keeps a
/// user's positions in different pools apart.
#[derive(Clone, Copy, Debug, PartialEq, Eq)]
pub struct UserAccount {
    /// Whose position this is; unset until the first deposit.
    pub owner: Address,
    /// What the user has deposited: the collateral.
    pub deposit_amount: u64,
    /// What the user owes.
    pub borrowed_amount: u64,
    pub bump: u8,
}

/// The price of the asset, as its authority last set it. Nothing in a feed ties
/// it to a pool: the caller hands each operation the feed that belongs to it.
#[derive(Clone, Copy, Debug, PartialEq, Eq)]
pub struct PriceFeed {
    pub price: u64,
    /// Stored beside the price; no computation scales by it.
    pub decimals: u8,
    /// The only one who may set the price.
    pub authority: Address,
}

/// A holding of the asset: where it is, and how much is there.
#[derive(Clone, Copy, Debug, PartialEq, Eq)]
pub struct TokenAccount {
    pub key: Address,
    pub amount: u64,
}

impl UserAccount {
    /// The share `percent` of the collateral's value at `price`, rounded down, or
    /// `None` where the value or its product with `percent` leaves the 64-bit
    /// range. The price multiplies the raw amount; nothing scales by decimals.
    pub open spec fn collateral_limit_spec(&self, price: u64, percent: u64) -> Option<u64> {
        if self.deposit_amount * price > u64::MAX || self.deposit_amount * price * percent
            > u64::MAX {
            None
        } else {
            Some(((self.deposit_amount * price * percent) / 100) as u64)
        }
    }

    #[verifier::when_used_as_spec(collateral_limit_spec)]
    pub fn collateral_limit(&self, price: u64, percent: u64) -> (r: Option<u64>)
        ensures
            r == self.collateral_limit_spec(price, percent),
    {
        let value: u64 = match self.deposit_amount.checked_mul(price) {
            Some(value) => value,
            None => {
                return None;
            },
        };
        match value.checked_mul(percent) {
            Some(scaled) => Some(scaled / 100),
            None => None,
        }
    }
}

} // verus!
