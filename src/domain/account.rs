use vstd::prelude::*;

use super::amount::{amount_or_zero, fits, Amount};
use super::errors::TransactionError;

verus! {

/// One client's balances.
#[derive(Clone, Copy, Debug, Default, PartialEq, Eq, Structural)]
pub struct Account {
    pub client: u16,
    /// What the client may withdraw: `total - held`.
    pub available: Amount,
    /// What a pending dispute has frozen: `total - available`.
    pub held: Amount,
    /// `available + held`.
    pub total: Amount,
    /// Set by a chargeback; a locked account takes no further transaction.
    pub locked: bool,
}

impl Account {
    /// The balances agree: `total == available + held`.
    pub open spec fn wf(self) -> bool {
        self.total.value() == self.available.value() + self.held.value()
    }

    /// This account with the given balances, or `UnspecifiedBehavior` where
    /// one of them falls outside what an amount can hold.
    pub open spec fn rebalanced(self, available: int, held: int, total: int) -> Result<
        Account,
        TransactionError,
    > {
        if fits(available) && fits(held) && fits(total) {
            Ok(
                Account {
                    client: self.client,
                    available: Amount { units: available as i128 },
                    held: Amount { units: held as i128 },
                    total: Amount { units: total as i128 },
                    locked: self.locked,
                },
            )
        } else {
            Err(TransactionError::UnspecifiedBehavior)
        }
    }

    /// Deposit: `total += a`, then `available = total - held`.
    pub open spec fn deposit_spec(self, amt: Option<Amount>) -> Result<Account, TransactionError> {
        let total = self.total.value() + amount_or_zero(amt);
        self.rebalanced(total - self.held.value(), self.held.value(), total)
    }

    /// Withdrawal: refused above `available`; else `total -= a`, then
    /// `available = total - held`. No amount changes nothing.
    pub open spec fn withdraw_spec(self, amt: Option<Amount>) -> Result<Account, TransactionError> {
        match amt {
            None => Ok(self),
            Some(a) => if a.value() > self.available.value() {
                Err(TransactionError::InsufficientFunds)
            } else {
                let total = self.total.value() - a.value();
                self.rebalanced(total - self.held.value(), self.held.value(), total)
            },
        }
    }

    /// Dispute with the signed amount `v`: a negative `v` (a deposit) moves
    /// `-v` from available to held; a positive one (a withdrawal) holds `v`
    /// on top of the total.
    pub open spec fn dispute_spec(self, amt: Option<Amount>) -> Result<Account, TransactionError> {
        let v = amount_or_zero(amt);
        if v < 0 {
            self.rebalanced(self.available.value() + v, self.held.value() - v, self.total.value())
        } else {
            self.rebalanced(self.available.value(), self.held.value() + v, self.total.value() + v)
        }
    }

    /// Resolve with the signed amount `v`: the exact inverse of a dispute
    /// with `v`. A negative `v` moves `-v` from held back to available; a
    /// positive one takes the held `v` off the total again.
    pub open spec fn resolve_spec(self, amt: Option<Amount>) -> Result<Account, TransactionError> {
        let v = amount_or_zero(amt);
        if v < 0 {
            self.rebalanced(self.available.value() - v, self.held.value() + v, self.total.value())
        } else {
            self.rebalanced(self.available.value(), self.held.value() - v, self.total.value() - v)
        }
    }

    /// Chargeback with the signed amount `v`, which then locks the account.
    pub open spec fn chargeback_spec(self, amt: Option<Amount>) -> Result<
        Account,
        TransactionError,
    > {
        let v = amount_or_zero(amt);
        let moved = if v < 0 {
            self.rebalanced(self.available.value() - v, self.held.value() + v, self.total.value())
        } else {
            self.rebalanced(self.available.value(), self.held.value() - v, self.total.value() - v)
        };
        match moved {
            Ok(a) => Ok(Account { locked: true, ..a }),
            Err(e) => Err(e),
        }
    }

    /// `after` and `r` are what an operation with the outcome `expected`
    /// leaves: the new account on success, `before` untouched on failure.
    pub open spec fn committed(
        before: Account,
        after: Account,
        r: Result<(), TransactionError>,
        expected: Result<Account, TransactionError>,
    ) -> bool {
        match expected {
            Ok(a) => r is Ok && after == a,
            Err(e) => r == Err::<(), TransactionError>(e) && after == before,
        }
    }

    /// The account that a first transaction for `client` opens: all
    /// balances zero, not locked.
    pub open spec fn fresh(client: u16) -> Account {
        Account {
            client,
            available: Amount { units: 0 },
            held: Amount { units: 0 },
            total: Amount { units: 0 },
            locked: false,
        }
    }

    /// A fresh account for `client`: all balances zero, not locked.
    pub fn new(client: u16) -> (r: Account)
        ensures
            r == Account::fresh(client),
            r.wf(),
    {
        Account {
            client,
            available: Amount::zero(),
            held: Amount::zero(),
            total: Amount::zero(),
            locked: false,
        }
    }

    /// Stores the three balances where each was computed, else fails
    /// without a change.
    fn commit(&mut self, available: Option<i128>, held: Option<i128>, total: Option<i128>) -> (r:
        Result<(), TransactionError>)
        ensures
            match (available, held, total) {
                (Some(a), Some(h), Some(t)) => {
                    &&& r is Ok
                    &&& *final(self) == Account {
                        available: Amount { units: a },
                        held: Amount { units: h },
                        total: Amount { units: t },
                        ..*old(self)
                    }
                },
                _ => r == Err::<(), TransactionError>(TransactionError::UnspecifiedBehavior)
                    && *final(self) == *old(self),
            },
    {
        match (available, held, total) {
            (Some(a), Some(h), Some(t)) => {
                self.available = Amount { units: a };
                self.held = Amount { units: h };
                self.total = Amount { units: t };
                Ok(())
            },
            _ => Err(TransactionError::UnspecifiedBehavior),
        }
    }

    /// Takes `amt` out of the account where it does not exceed `available`.
    pub fn withdraw(&mut self, amt: Option<Amount>) -> (r: Result<(), TransactionError>)
        ensures
            Account::committed(*old(self), *final(self), r, old(self).withdraw_spec(amt)),
            old(self).wf() && r is Ok ==> final(self).wf(),
    {
        match amt {
            None => Ok(()),
            Some(val) => {
                if val.units > self.available.units {
                    Err(TransactionError::InsufficientFunds)
                } else if val.units <= self.available.units {
                    let total = self.total.units.checked_sub(val.units);
                    let available = match total {
                        Some(t) => t.checked_sub(self.held.units),
                        None => None,
                    };
                    let held = Some(self.held.units);
                    self.commit(available, held, total)
                } else {
                    Err(TransactionError::UnspecifiedBehavior)
                }
            },
        }
    }

    /// Adds `amt` to the account; no amount adds nothing.
    pub fn deposit(&mut self, amt: Option<Amount>) -> (r: Result<(), TransactionError>)
        ensures
            Account::committed(*old(self), *final(self), r, old(self).deposit_spec(amt)),
            r is Ok ==> final(self).wf(),
    {
        let val = match amt {
            Some(a) => a.units,
            None => 0,
        };
        let total = self.total.units.checked_add(val);
        let available = match total {
            Some(t) => t.checked_sub(self.held.units),
            None => None,
        };
        let held = Some(self.held.units);
        self.commit(available, held, total)
    }

    /// Releases a disputed signed amount, undoing the dispute (see
    /// `resolve_spec`).
    pub fn resolve(&mut self, amt: Option<Amount>) -> (r: Result<(), TransactionError>)
        ensures
            Account::committed(*old(self), *final(self), r, old(self).resolve_spec(amt)),
            old(self).wf() && r is Ok ==> final(self).wf(),
    {
        let val = match amt {
            Some(a) => a.units,
            None => 0,
        };
        if val < 0 {
            // resolving a deposit dispute
            let held = self.held.units.checked_add(val);
            let available = self.available.units.checked_sub(val);
            self.commit(available, held, Some(self.total.units))
        } else {
            // resolving a withdrawal dispute
            let held = self.held.units.checked_sub(val);
            let total = self.total.units.checked_sub(val);
            self.commit(Some(self.available.units), held, total)
        }
    }

    /// Settles a disputed signed amount against the client and locks the
    /// account (see `chargeback_spec`).
    pub fn chargeback(&mut self, amt: Option<Amount>) -> (r: Result<(), TransactionError>)
        ensures
            Account::committed(*old(self), *final(self), r, old(self).chargeback_spec(amt)),
            old(self).wf() && r is Ok ==> final(self).wf(),
    {
        let val = match amt {
            Some(a) => a.units,
            None => 0,
        };
        let moved = if val < 0 {
            // charging back a deposit dispute
            let held = self.held.units.checked_add(val);
            let available = self.available.units.checked_sub(val);
            self.commit(available, held, Some(self.total.units))
        } else {
            // charging back a withdrawal dispute
            let held = self.held.units.checked_sub(val);
            let total = self.total.units.checked_sub(val);
            self.commit(Some(self.available.units), held, total)
        };
        if moved.is_ok() {
            self.locked = true;
        }
        moved
    }

    /// Holds a disputed signed amount (see `dispute_spec`).
    pub fn dispute(&mut self, amt: Option<Amount>) -> (r: Result<(), TransactionError>)
        ensures
            Account::committed(*old(self), *final(self), r, old(self).dispute_spec(amt)),
            old(self).wf() && r is Ok ==> final(self).wf(),
    {
        let val = match amt {
            Some(a) => a.units,
            None => 0,
        };
        if val < 0 {
            // disputing a deposit
            let held = self.held.units.checked_sub(val);
            let available = self.available.units.checked_add(val);
            self.commit(available, held, Some(self.total.units))
        } else {
            // disputing a withdrawal
            let held = self.held.units.checked_add(val);
            let total = self.total.units.checked_add(val);
            self.commit(Some(self.available.units), held, total)
        }
    }
}

} // verus!
