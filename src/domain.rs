pub mod account;
pub mod amount;
pub mod errors;
pub mod transaction;
pub mod tx_history;

pub use account::Account;
pub use amount::Amount;
pub use transaction::Transaction;
pub use tx_history::History;

use vstd::prelude::*;

verus! {

/// Applies `self` to `rhs`, failing without a change where it cannot.
pub trait TryUpdate<Rhs> {
    type Output;

    type Error;

    fn try_update(self, rhs: Rhs) -> Result<(), Self::Error>;
}

} // verus!
