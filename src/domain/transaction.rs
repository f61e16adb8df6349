use vstd::prelude::*;

use super::account::Account;
use super::amount::Amount;
use super::errors::TransactionError;

verus! {

/// The kind of a transaction.
#[derive(Clone, Copy, Debug, Default, PartialEq, Eq, Structural)]
pub enum Operation {
    #[default]
    Deposit,
    Withdrawal,
    Resolve,
    Chargeback,
    Dispute,
}

/// One input event, addressed to a client's account.
#[derive(Clone, Copy, Debug, Default, PartialEq, Eq, Structural)]
pub struct Transaction {
    pub op: Operation,
    pub client: u16,
    pub tx: u32,
    pub amount: Option<Amount>,
}

/// The account that results from applying `t` to `a`, or the error.
pub open spec fn apply_spec(t: Transaction, a: Account) -> Result<Account, TransactionError> {
    if a.locked {
        Err(TransactionError::LockedAccount)
    } else {
        match t.op {
            Operation::Deposit => a.deposit_spec(t.amount),
            Operation::Withdrawal => a.withdraw_spec(t.amount),
            Operation::Resolve => a.resolve_spec(t.amount),
            Operation::Chargeback => a.chargeback_spec(t.amount),
            Operation::Dispute => a.dispute_spec(t.amount),
        }
    }
}

impl<'b> super::TryUpdate<&'b mut Account> for &Transaction {
    type Output = ();

    type Error = TransactionError;

    fn try_update(self, rhs: &'b mut Account) -> (r: Result<(), TransactionError>)
        ensures
            Account::committed(*old(rhs), *final(rhs), r, apply_spec(*self, *old(rhs))),
    {
        if rhs.locked {
            return Err(TransactionError::LockedAccount);
        }
        match self.op {
            Operation::Deposit => rhs.deposit(self.amount),
            Operation::Withdrawal => rhs.withdraw(self.amount),
            Operation::Resolve => rhs.resolve(self.amount),
            Operation::Chargeback => rhs.chargeback(self.amount),
            Operation::Dispute => rhs.dispute(self.amount),
        }
    }
}

} // verus!
