use std::collections::HashMap;

use vstd::prelude::*;

use crate::domain::account::Account;
use crate::domain::amount::{fits, Amount};
use crate::domain::errors::TransactionError;
use crate::domain::transaction::{apply_spec, Operation, Transaction};
use crate::domain::tx_history::{node_of, History, Node};
use crate::domain::TryUpdate;

verus! {

broadcast use vstd::std_specs::hash::group_hash_axioms;

/// Where a task stands in applying its transaction.
#[derive(Clone, Copy, Debug, PartialEq, Eq, Structural)]
pub enum State {
    Idle,
    Fetching,
    Updating,
    Logging,
    Done,
}

/// The ledger and the history after a transaction that went through.
pub type Committed = (Map<u16, Account>, Map<(u16, u32), Node>);

/// Whether `op` refers back to an earlier transaction.
pub open spec fn refers_back(op: Operation) -> bool {
    match op {
        Operation::Resolve | Operation::Chargeback | Operation::Dispute => true,
        _ => false,
    }
}

/// The signed amount that a dispute, resolve or chargeback carries when
/// the last record of its pair is `n`: the negated amount of a deposit, the
/// amount of anything else as it stands.
pub open spec fn carried_spec(n: Node) -> Result<Option<Amount>, TransactionError> {
    match (n.op, n.amount) {
        (Operation::Deposit, Some(a)) => if fits(-a.value()) {
            Ok(Some(Amount { units: (-a.value()) as i128 }))
        } else {
            Err(TransactionError::UnspecifiedBehavior)
        },
        _ => Ok(n.amount),
    }
}

/// The transaction `t` with the amount taken from the history.
pub open spec fn fetch_spec(hist: Map<(u16, u32), Node>, t: Transaction) -> Result<
    Transaction,
    TransactionError,
> {
    if !hist.contains_key((t.client, t.tx)) {
        Err(TransactionError::TransactionNotFound)
    } else {
        match carried_spec(hist[(t.client, t.tx)]) {
            Ok(amount) => Ok(Transaction { amount, ..t }),
            Err(e) => Err(e),
        }
    }
}

/// The account of `client` in `ledger`, or a fresh one.
pub open spec fn account_of(ledger: Map<u16, Account>, client: u16) -> Account {
    if ledger.contains_key(client) {
        ledger[client]
    } else {
        Account::fresh(client)
    }
}

/// Applies `t` to its client's account and records it.
pub open spec fn update_spec(
    ledger: Map<u16, Account>,
    hist: Map<(u16, u32), Node>,
    t: Transaction,
) -> Result<Committed, TransactionError> {
    match apply_spec(t, account_of(ledger, t.client)) {
        Ok(a) => Ok((ledger.insert(t.client, a), hist.insert((t.client, t.tx), node_of(t)))),
        Err(e) => Err(e),
    }
}

/// Takes the amount of `t` from the history, then applies it.
pub open spec fn fetch_update_spec(
    ledger: Map<u16, Account>,
    hist: Map<(u16, u32), Node>,
    t: Transaction,
) -> Result<Committed, TransactionError> {
    match fetch_spec(hist, t) {
        Ok(t2) => update_spec(ledger, hist, t2),
        Err(e) => Err(e),
    }
}

/// What a task in state `s` with transaction `t` ends with, from `ledger`
/// and `hist`.
pub open spec fn finish_spec(
    s: State,
    ledger: Map<u16, Account>,
    hist: Map<(u16, u32), Node>,
    t: Transaction,
) -> Result<Committed, TransactionError> {
    match s {
        State::Idle => if refers_back(t.op) {
            fetch_update_spec(ledger, hist, t)
        } else {
            update_spec(ledger, hist, t)
        },
        State::Fetching => fetch_update_spec(ledger, hist, t),
        State::Updating => update_spec(ledger, hist, t),
        State::Logging => Ok((ledger, hist.insert((t.client, t.tx), node_of(t)))),
        State::Done => Ok((ledger, hist)),
    }
}

/// What applying `t` to `ledger` and `hist` gives.
pub open spec fn process_spec(
    ledger: Map<u16, Account>,
    hist: Map<(u16, u32), Node>,
    t: Transaction,
) -> Result<Committed, TransactionError> {
    finish_spec(State::Idle, ledger, hist, t)
}

/// How far a state is from `Done`.
pub open spec fn rank(s: State) -> nat {
    match s {
        State::Idle => 4,
        State::Fetching => 3,
        State::Updating => 2,
        State::Logging => 1,
        State::Done => 0,
    }
}

/// Applies one transaction to the ledger and the history that it borrows.
pub struct Task<'a> {
    pub history: &'a mut History,
    pub accounts: &'a mut HashMap<u16, Account>,
    pub transaction: Transaction,
    pub state: State,
}

impl<'a> Task<'a> {
    /// A task that has not started yet.
    pub fn new(
        history: &'a mut History,
        accounts: &'a mut HashMap<u16, Account>,
        transaction: Transaction,
    ) -> (r: Self)
        ensures
            *r.history == *old(history),
            *r.accounts == *old(accounts),
            *final(r.history) == *final(history),
            *final(r.accounts) == *final(accounts),
            r.transaction == transaction,
            r.state == State::Idle,
    {
        Self { history, accounts, transaction, state: State::Idle }
    }

    /// The ledger and history that running on from the current state leaves, or the error.
    pub open spec fn outcome(self) -> Result<Committed, TransactionError> {
        finish_spec(self.state, (*self.accounts)@, (*self.history)@, self.transaction)
    }
}

/// A machine that runs from its state to completion, one step at a time.
pub trait Machine {
    /// Steps until done, or until a step fails.
    fn run(&mut self) -> Result<(), TransactionError>;

    /// Takes one step.
    fn next_state(&mut self) -> Result<&mut Self, TransactionError>;
}

/// The signed amount from a history record.
fn carried(node: &Node) -> (r: Result<Option<Amount>, TransactionError>)
    ensures
        r == carried_spec(*node),
{
    match node.op {
        Operation::Deposit => match node.amount {
            Some(a) => if a.units == i128::MIN {
                Err(TransactionError::UnspecifiedBehavior)
            } else {
                Ok(Some(Amount { units: -a.units }))
            },
            None => Ok(None),
        },
        Operation::Withdrawal => Ok(node.amount),
        _ => Ok(node.amount),
    }
}

impl<'a> Machine for Task<'a> {
    /// Applies the transaction: the ledger and the history end as `outcome`
    /// says, and are left as they were where it fails.
    fn run(&mut self) -> (r: Result<(), TransactionError>)
        ensures
            match old(self).outcome() {
                Ok((ledger, hist)) => {
                    &&& r is Ok
                    &&& (*final(self).accounts)@ == ledger
                    &&& (*final(self).history)@ == hist
                    &&& final(self).state == State::Done
                },
                Err(e) => {
                    &&& r == Err::<(), TransactionError>(e)
                    &&& (*final(self).accounts)@ == (*old(self).accounts)@
                    &&& (*final(self).history)@ == (*old(self).history)@
                },
            },
            *final(final(self).accounts) == *final(old(self).accounts),
            *final(final(self).history) == *final(old(self).history),
    {
        loop
            invariant
                match old(self).outcome() {
                    Ok(c) => self.outcome() == Ok::<Committed, TransactionError>(c),
                    Err(e) => {
                        &&& self.outcome() == Err::<Committed, TransactionError>(e)
                        &&& (*self.accounts)@ == (*old(self).accounts)@
                        &&& (*self.history)@ == (*old(self).history)@
                    },
                },
                *final(self.accounts) == *final(old(self).accounts),
                *final(self.history) == *final(old(self).history),
            decreases rank(self.state),
        {
            match self.state {
                State::Idle => match self.transaction.op {
                    // deposits and withdrawals go straight to the account
                    Operation::Deposit | Operation::Withdrawal => {
                        self.state = State::Updating;
                        self.next_state()?;
                    },
                    // the dispute family first fetches the disputed transaction
                    Operation::Resolve | Operation::Chargeback | Operation::Dispute => {
                        self.state = State::Fetching;
                        self.next_state()?;
                    },
                },
                State::Fetching | State::Updating | State::Logging => {
                    self.next_state()?;
                },
                State::Done => return Ok(()),
            }
        }
    }

    /// Moves one state on: `Fetching` takes the signed amount from the
    /// history, `Updating` applies the transaction to the client's account
    /// (opening it where needed), `Logging` records the transaction.
    fn next_state(&mut self) -> (r: Result<&mut Self, TransactionError>)
        ensures
            old(self).state != State::Idle && old(self).state != State::Done ==> match r {
                Ok(s) => {
                    &&& rank(s.state) < rank(old(self).state)
                    &&& s.outcome() == old(self).outcome()
                    &&& old(self).outcome() is Err ==> (*s.accounts)@ == (*old(self).accounts)@
                        && (*s.history)@ == (*old(self).history)@
                    &&& *final(s) == *final(self)
                    &&& *final(s.accounts) == *final(old(self).accounts)
                    &&& *final(s.history) == *final(old(self).history)
                },
                Err(e) => {
                    &&& old(self).outcome() == Err::<Committed, TransactionError>(e)
                    &&& (*final(self).accounts)@ == (*old(self).accounts)@
                    &&& (*final(self).history)@ == (*old(self).history)@
                    &&& *final(final(self).accounts) == *final(old(self).accounts)
                    &&& *final(final(self).history) == *final(old(self).history)
                },
            },
            old(self).state == State::Fetching ==> match r {
                Ok(s) => {
                    &&& fetch_spec((*old(self).history)@, old(self).transaction) == Ok::<
                        Transaction,
                        TransactionError,
                    >(s.transaction)
                    &&& s.state == State::Updating
                    &&& (*s.accounts)@ == (*old(self).accounts)@
                    &&& (*s.history)@ == (*old(self).history)@
                },
                Err(e) => fetch_spec((*old(self).history)@, old(self).transaction) == Err::<
                    Transaction,
                    TransactionError,
                >(e),
            },
            old(self).state == State::Updating ==> ({
                let t = old(self).transaction;
                let applied = apply_spec(t, account_of((*old(self).accounts)@, t.client));
                match r {
                    Ok(s) => {
                        &&& applied is Ok
                        &&& (*s.accounts)@ == (*old(self).accounts)@.insert(
                            t.client,
                            applied->Ok_0,
                        )
                        &&& (*s.history)@ == (*old(self).history)@
                        &&& s.transaction == t
                        &&& s.state == State::Logging
                    },
                    Err(e) => applied == Err::<Account, TransactionError>(e),
                }
            }),
            old(self).state == State::Logging ==> match r {
                Ok(s) => {
                    &&& (*s.accounts)@ == (*old(self).accounts)@
                    &&& (*s.history)@ == (*old(self).history)@.insert(
                        (old(self).transaction.client, old(self).transaction.tx),
                        node_of(old(self).transaction),
                    )
                    &&& s.transaction == old(self).transaction
                    &&& s.state == State::Done
                },
                Err(_) => false,
            },
            old(self).state == State::Idle || old(self).state == State::Done ==> match r {
                Ok(s) => *s == *old(self) && *final(s) == *final(self),
                Err(_) => false,
            },
    {
        match self.state {
            State::Idle => Ok(self),
            State::Fetching => {
                // a dispute takes its amount from the disputed transaction:
                // negated for a deposit, as it stands for a withdrawal
                let maybe_node = self.history.get(&(self.transaction.client, self.transaction.tx));
                match maybe_node {
                    Some(node) => {
                        let amount = carried(node)?;
                        self.transaction.amount = amount;
                        self.state = State::Updating;
                        Ok(self)
                    },
                    None => Err(TransactionError::TransactionNotFound),
                }
            },
            State::Updating => {
                let client = self.transaction.client;
                let mut act = match self.accounts.get(&client) {
                    Some(a) => *a,
                    None => Account::new(client),
                };
                (&self.transaction).try_update(&mut act)?;
                self.accounts.insert(client, act);
                self.state = State::Logging;
                Ok(self)
            },
            State::Logging => {
                // the record of the pair now reflects this transaction
                self.history.insert(&self.transaction);
                self.state = State::Done;
                Ok(self)
            },
            State::Done => Ok(self),
        }
    }
}

} // verus!
