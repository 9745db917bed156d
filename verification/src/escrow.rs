//! Escrow custody for one contest's locked funds.
//!
//! The escrow holds a balance in minor currency units. Credits and debits
//! either complete exactly or leave the balance untouched; an overflowing
//! credit or debit is a fatal `CalculationOverflow`, never a silent wrap.
//! The host's native transfer primitive performs the other leg of each
//! movement: a disbursing operation returns the [`Payout`] the host must
//! credit.

use vstd::prelude::*;
use crate::account::AccountId;
use crate::errors::ErrorCode;

verus! {

/// One credit leg for the host's transfer primitive to perform: `amount`
/// minor units owed to `to`.
#[derive(Clone, Copy, Debug, PartialEq, Eq, Structural)]
pub struct Payout {
    /// Who is owed the funds.
    pub to: AccountId,
    /// How much is owed, in minor currency units.
    pub amount: u64,
}

/// The custody balance locked for one contest, kept in minor currency
/// units and mutated only by validated credits and debits.
#[derive(Clone, Copy, Debug, PartialEq, Eq, Structural)]
pub struct Escrow {
    /// The locked balance, in minor currency units.
    pub balance: u64,
}

impl Escrow {
    /// An empty escrow.
    pub fn new() -> (r: Escrow)
        ensures
            r.balance == 0,
    {
        Escrow { balance: 0 }
    }

    /// Credits `amount` to the balance. Fails with `CalculationOverflow`,
    /// leaving the balance untouched, exactly when the credit would
    /// overflow.
    pub fn fund(&mut self, amount: u64) -> (r: Result<(), ErrorCode>)
        ensures
            if old(self).balance + amount <= u64::MAX {
                r == Ok::<(), ErrorCode>(()) && final(self).balance == old(self).balance + amount
            } else {
                r == Err::<(), ErrorCode>(ErrorCode::CalculationOverflow) && *final(self)
                    == *old(self)
            },
    {
        if self.balance <= u64::MAX - amount {
            self.balance = self.balance + amount;
            Ok(())
        } else {
            Err(ErrorCode::CalculationOverflow)
        }
    }

    /// Debits `amount` and reports the credit leg owed to `recipient`.
    /// Fails with `CalculationOverflow`, leaving the balance untouched,
    /// exactly when the balance is short.
    pub fn disburse(&mut self, amount: u64, recipient: AccountId) -> (r: Result<
        Payout,
        ErrorCode,
    >)
        ensures
            if amount <= old(self).balance {
                r == Ok::<Payout, ErrorCode>((Payout { to: recipient, amount })) && final(
                    self).balance == old(self).balance - amount
            } else {
                r == Err::<Payout, ErrorCode>(ErrorCode::CalculationOverflow) && *final(self)
                    == *old(self)
            },
    {
        if amount <= self.balance {
            self.balance = self.balance - amount;
            Ok(Payout { to: recipient, amount })
        } else {
            Err(ErrorCode::CalculationOverflow)
        }
    }

    /// Zeroes the balance and reports the whole remainder as the credit
    /// leg owed to `recipient`.
    pub fn reclaim(&mut self, recipient: AccountId) -> (p: Payout)
        ensures
            final(self).balance == 0,
            p == (Payout { to: recipient, amount: old(self).balance }),
    {
        let amount = self.balance;
        self.balance = 0;
        Payout { to: recipient, amount }
    }
}

} // verus!
