//! The pool's aggregate record and the accrual of interest on it.

use vstd::prelude::*;
use vstd::arithmetic::div_mod::lemma_div_is_ordered;
use crate::address::Address;
use crate::error::ErrorCode;

verus! {

/// Basis points in one whole: the unit of `Bank::interest_rate`.
pub const BASIS_POINTS: u64 = 10_000;

/// Seconds in the 365-day year over which the rate is quoted.
pub const SECONDS_PER_YEAR: u64 = 31_536_000;

/// The aggregate state of the pool of one asset.
///
/// Interest accrues on these totals and on nothing else: no position is touched
/// by accrual, so the positions' deposits add up to less than `total_deposits`
/// once interest has been credited.
#[derive(Clone, Copy, Debug, PartialEq, Eq)]
pub struct Bank {
    /// Who created the pool.
    pub authority: Address,
    /// Everything deposited, with the interest credited so far.
    pub total_deposits: u64,
    /// Everything lent out, with the interest charged so far.
    pub total_borrowed: u64,
    /// The asset that the pool holds.
    pub mint: Address,
    /// Where the pooled asset is kept.
    pub bank_token_account: Address,
    /// Percentage of the collateral value above which a debt can be liquidated.
    /// Meant to lie between 0 and 100; the engine takes it as it is.
    pub liquidation_threshold: u64,
    /// Percentage of the collateral value up to which one may borrow.
    /// Meant to lie between 0 and 100; the engine takes it as it is.
    pub max_ltv: u64,
    /// Yearly interest, in basis points.
    pub interest_rate: u64,
    /// The time, in seconds, up to which interest has been accrued.
    pub last_updated: i64,
}

impl Bank {
    /// The interest that falls due between `last_updated` and `now`: the debt times
    /// the rate times the seconds gone by, over a year's worth of basis points,
    /// rounded down. Nothing is due when no time has gone by.
    pub open spec fn interest_due(self, now: i64) -> int {
        if now > self.last_updated {
            (self.total_borrowed * self.interest_rate * (now - self.last_updated))
                / (BASIS_POINTS * SECONDS_PER_YEAR)
        } else {
            0
        }
    }

    /// The pool after accrual up to `now`, or `None` where a total would leave the
    /// 64-bit range. Where no time has gone by, the pool itself.
    pub open spec fn accrued(self, now: i64) -> Option<Bank> {
        let interest = self.interest_due(now);
        if now <= self.last_updated {
            Some(self)
        } else if self.total_borrowed + interest > u64::MAX || self.total_deposits + interest
            > u64::MAX {
            None
        } else {
            Some(
                Bank {
                    total_borrowed: (self.total_borrowed + interest) as u64,
                    total_deposits: (self.total_deposits + interest) as u64,
                    last_updated: now,
                    ..self
                },
            )
        }
    }

    /// The pool as a call of `process_interest` leaves it: accrued, or untouched
    /// where the accrual is refused.
    pub open spec fn after_accrual(self, now: i64) -> Bank {
        match self.accrued(now) {
            Some(bank) => bank,
            None => self,
        }
    }

    /// Accrues interest up to `now`. The same amount is charged to the borrowers
    /// and credited to the depositors in aggregate. A total that would overflow
    /// refuses the accrual and leaves the pool as it was.
    pub fn process_interest(&mut self, now: i64) -> (r: Result<(), ErrorCode>)
        ensures
            match old(self).accrued(now) {
                Some(bank) => r is Ok && *final(self) == bank,
                None => r == Err::<(), ErrorCode>(ErrorCode::MathOverflow) && *final(self) == *old(
                    self,
                ),
            },
            *final(self) == old(self).after_accrual(now),
            final(self).total_borrowed >= old(self).total_borrowed,
            final(self).total_deposits >= old(self).total_deposits,
            final(self).last_updated >= old(self).last_updated,
            final(self).total_borrowed - old(self).total_borrowed == final(self).total_deposits
                - old(self).total_deposits,
            r is Ok ==> final(self).total_borrowed - old(self).total_borrowed == old(
                self,
            ).interest_due(now),
    {
        if now <= self.last_updated {
            return Ok(());
        }
        let elapsed: u128 = (now as i128 - self.last_updated as i128) as u128;
        let borrowed: u128 = self.total_borrowed as u128;
        let rate: u128 = self.interest_rate as u128;
        assert(borrowed * rate <= 0xffff_ffff_ffff_ffff * 0xffff_ffff_ffff_ffff) by (
            nonlinear_arith)
            requires
                0 <= borrowed <= 0xffff_ffff_ffff_ffff,
                0 <= rate <= 0xffff_ffff_ffff_ffff,
        ;
        let yearly: u128 = borrowed * rate;
        assert(0 <= yearly * elapsed) by (nonlinear_arith)
            requires
                0 <= yearly,
                0 <= elapsed,
        ;
        let year_of_basis_points: u128 = BASIS_POINTS as u128 * SECONDS_PER_YEAR as u128;
        let interest: u128 = match yearly.checked_mul(elapsed) {
            Some(product) => product / year_of_basis_points,
            None => {
                proof {
                    lemma_div_is_ordered(
                        0x1_0000_0000_0000_0000_0000_0000_0000_0000int,
                        yearly * elapsed,
                        BASIS_POINTS * SECONDS_PER_YEAR,
                    );
                }
                return Err(ErrorCode::MathOverflow);
            },
        };
        if interest > 0xffff_ffff_ffff_ffffu128 {
            return Err(ErrorCode::MathOverflow);
        }
        let interest: u64 = interest as u64;
        let total_borrowed: u64 = match self.total_borrowed.checked_add(interest) {
            Some(sum) => sum,
            None => {
                return Err(ErrorCode::MathOverflow);
            },
        };
        let total_deposits: u64 = match self.total_deposits.checked_add(interest) {
            Some(sum) => sum,
            None => {
                return Err(ErrorCode::MathOverflow);
            },
        };
        self.total_borrowed = total_borrowed;
        self.total_deposits = total_deposits;
        self.last_updated = now;
        Ok(())
    }
}

} // verus!
