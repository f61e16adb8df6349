use vstd::prelude::*;

verus! {

/// The ways in which applying one transaction can fail.
#[derive(Clone, Copy, Debug, PartialEq, Eq, Structural)]
pub enum TransactionError {
    /// A withdrawal asks for more than is available.
    InsufficientFunds,
    /// A dispute, resolve or chargeback names a transaction never recorded.
    TransactionNotFound,
    /// A balance would leave the range that an amount can hold.
    UnspecifiedBehavior,
    /// The account was frozen by a chargeback.
    LockedAccount,
}

} // verus!
