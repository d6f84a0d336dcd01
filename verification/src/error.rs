//! The reasons for which an operation is refused.

use vstd::prelude::*;

verus! {

/// Why an operation was refused. A refused operation changes nothing.
#[derive(Clone, Copy, Debug, PartialEq, Eq, Structural)]
pub enum ErrorCode {
    /// The borrow would lift the debt above what the collateral backs.
    OverLTV,
    /// The treasury holds less than the amount to lend.
    InsufficientFunds,
    /// The repayment is larger than the recorded debt.
    OverRepay,
    /// A sum, product or difference left the 64-bit range.
    MathOverflow,
    /// The position's debt does not exceed its liquidation limit.
    NotUndercollateralized,
    /// The caller is not the authority recorded for the write.
    AuthorizationError,
}

impl ErrorCode {
    /// The sentence shown to a user for each reason.
    pub open spec fn message_spec(self) -> Seq<char> {
        match self {
            ErrorCode::OverLTV => "User does not have enough collateral to borrow this amount."@,
            ErrorCode::InsufficientFunds => "Bank does not have enough funds."@,
            ErrorCode::OverRepay => "Repayment amount exceeds borrowed amount."@,
            ErrorCode::MathOverflow => "Math operation overflow"@,
            ErrorCode::NotUndercollateralized => "User is not undercollateralized, cannot liquidate."@,
            ErrorCode::AuthorizationError => "Caller is not the authority of this account."@,
        }
    }

    pub fn message(&self) -> (r: &'static str)
        ensures
            r@ == self.message_spec(),
    {
        match self {
            ErrorCode::OverLTV => "User does not have enough collateral to borrow this amount.",
            ErrorCode::InsufficientFunds => "Bank does not have enough funds.",
            ErrorCode::OverRepay => "Repayment amount exceeds borrowed amount.",
            ErrorCode::MathOverflow => "Math operation overflow",
            ErrorCode::NotUndercollateralized => "User is not undercollateralized, cannot liquidate.",
            ErrorCode::AuthorizationError => "Caller is not the authority of this account.",
        }
    }
}

} // verus!
