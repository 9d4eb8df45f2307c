//! Accounts that pay and receive fees.

use vstd::prelude::*;
use crate::pubkey::Pubkey;

verus! {

/// An account that holds lamports: a requester, a certifier or a treasury.
///
/// Each wallet handed to an operation is debited or credited on its own.
#[derive(Clone, Copy, Debug)]
pub struct Wallet {
    /// Whose account this is.
    pub key: Pubkey,
    /// What the account holds.
    pub lamports: u64,
}

impl Wallet {
    /// Whether the wallet can pay `amount`.
    pub open spec fn can_pay(self, amount: u64) -> bool {
        self.lamports >= amount
    }

    /// Whether the wallet can receive `amount` without leaving the range of
    /// balances.
    pub open spec fn can_receive(self, amount: u64) -> bool {
        self.lamports + amount <= u64::MAX
    }

    /// The wallet after it paid `amount`.
    pub open spec fn debited(self, amount: u64) -> Wallet
        recommends
            self.can_pay(amount),
    {
        Wallet { key: self.key, lamports: (self.lamports - amount) as u64 }
    }

    /// The wallet after it received `amount`.
    pub open spec fn credited(self, amount: u64) -> Wallet
        recommends
            self.can_receive(amount),
    {
        Wallet { key: self.key, lamports: (self.lamports + amount) as u64 }
    }
}

} // verus!
