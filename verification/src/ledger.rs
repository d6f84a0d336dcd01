//! What the engine asks of the token ledger, and how an operation is closed once
//! the ledger has answered.
//!
//! The engine moves no funds itself. An operation that passes its checks comes
//! back as a [`Pending`]: the transfers to make, in order, and the records as they
//! will stand once every transfer is made. The caller makes the transfers and
//! hands the ledger's answer to [`Pending::settle`].

use vstd::prelude::*;
use crate::account::UserAccount;
use crate::address::Address;
use crate::bank::Bank;

verus! {

/// Who authorises a transfer.
#[derive(Clone, Copy, Debug, PartialEq, Eq)]
pub enum Authority {
    /// The holder of the source account, by its own signature.
    Signer(Address),
    /// The pool itself, for its treasury. It signs with the seeds
    /// `"bank"`, the asset's address and `bump`.
    Bank { mint: Address, bump: u8 },
}

/// One movement of the asset between two holdings.
#[derive(Clone, Copy, Debug, PartialEq, Eq)]
pub struct Transfer {
    pub from: Address,
    pub to: Address,
    pub amount: u64,
    pub authority: Authority,
}

/// An operation that has passed its checks and waits for its transfers.
#[derive(Debug, PartialEq, Eq)]
pub struct Pending {
    /// The pool as it will stand.
    pub bank: Bank,
    /// The position as it will stand.
    pub user_account: UserAccount,
    /// The transfers to make, first to last.
    pub transfers: Vec<Transfer>,
}

/// A [`Pending`] as a mathematical value.
pub struct Plan {
    pub bank: Bank,
    pub user_account: UserAccount,
    pub transfers: Seq<Transfer>,
}

impl View for Pending {
    type V = Plan;

    open spec fn view(&self) -> Plan {
        Plan { bank: self.bank, user_account: self.user_account, transfers: self.transfers@ }
    }
}

impl Authority {
    /// The seeds with which the authority signs: none for a holder, who signs with
    /// its own key; for the pool the bytes of `"bank"`, the asset's address and
    /// the bump.
    pub open spec fn signer_seeds_spec(&self) -> Seq<Seq<u8>> {
        match *self {
            Authority::Signer(_) => Seq::empty(),
            Authority::Bank { mint, bump } => seq![
                seq![98u8, 97u8, 110u8, 107u8],
                mint@,
                seq![bump],
            ],
        }
    }

    pub fn signer_seeds(&self) -> (r: Vec<Vec<u8>>)
        ensures
            r.deep_view() == self.signer_seeds_spec(),
    {
        match self {
            Authority::Signer(_) => {
                let seeds: Vec<Vec<u8>> = Vec::new();
                assert(seeds.deep_view() =~= Seq::<Seq<u8>>::empty());
                seeds
            },
            Authority::Bank { mint, bump } => {
                let tag: Vec<u8> = vec![98u8, 97u8, 110u8, 107u8];
                let last: Vec<u8> = vec![*bump];
                let seeds: Vec<Vec<u8>> = vec![tag, mint.to_vec(), last];
                assert(seeds.deep_view() =~~= self.signer_seeds_spec());
                seeds
            },
        }
    }
}

impl Pending {
    /// Closes the operation with the ledger's answer for the whole list of
    /// transfers. Where every transfer was made, the records take their new
    /// values. Where one failed, they stay exactly as they were, and the ledger's
    /// error is handed back; a transfer made before the one that failed is the
    /// caller's to undo.
    pub fn settle<E>(
        self,
        bank: &mut Bank,
        user_account: &mut UserAccount,
        outcome: Result<(), E>,
    ) -> (r: Result<(), E>)
        ensures
            r == outcome,
            outcome is Ok ==> *final(bank) == self.bank && *final(user_account)
                == self.user_account,
            outcome is Err ==> *final(bank) == *old(bank) && *final(user_account) == *old(
                user_account,
            ),
    {
        if outcome.is_ok() {
            *bank = self.bank;
            *user_account = self.user_account;
        }
        outcome
    }
}

} // verus!
