use std::collections::HashMap;

use bank::domain::errors::TransactionError;
use bank::domain::transaction::Operation;
use bank::domain::tx_history::{History, Node};
use bank::domain::{Account, Amount, Transaction};
use bank::engine::{Machine, Task};

fn whole(n: i128) -> Amount {
    Amount::from_scaled(n, 0).unwrap()
}

fn account(client: u16, available: i128, held: i128, total: i128, locked: bool) -> Account {
    Account {
        client,
        available: whole(available),
        held: whole(held),
        total: whole(total),
        locked,
    }
}

fn tx(op: Operation, client: u16, id: u32, amount: Option<Amount>) -> Transaction {
    Transaction { op, client, tx: id, amount }
}

fn apply(
    history: &mut History,
    accounts: &mut HashMap<u16, Account>,
    t: Transaction,
) -> Result<(), TransactionError> {
    let mut task = Task::new(history, accounts, t);
    task.run()
}

fn sorted(accounts: &HashMap<u16, Account>) -> Vec<Account> {
    let mut v: Vec<Account> = accounts.values().copied().collect();
    v.sort_by_key(|a| a.client);
    v
}

#[test]
fn deposit_into_empty_ledger() {
    let mut history = History::new();
    let mut accounts = HashMap::<u16, Account>::new();
    let r = apply(&mut history, &mut accounts, tx(Operation::Deposit, 1, 1, Some(whole(42))));
    assert_eq!(r, Ok(()));
    assert_eq!(accounts.get(&1), Some(&account(1, 42, 0, 42, false)));
    assert_eq!(
        history.get(&(1, 1)),
        Some(&Node { op: Operation::Deposit, amount: Some(whole(42)) })
    );
}

#[test]
fn withdrawal_from_zero_balance_fails() {
    let mut history = History::new();
    let mut accounts = HashMap::<u16, Account>::new();
    let r = apply(&mut history, &mut accounts, tx(Operation::Withdrawal, 1, 1, Some(whole(42))));
    assert_eq!(r, Err(TransactionError::InsufficientFunds));
    assert!(accounts.is_empty());
    assert_eq!(history.get(&(1, 1)), None);

    let mut act = Account::new(1);
    assert_eq!(act.withdraw(Some(whole(42))), Err(TransactionError::InsufficientFunds));
    assert_eq!(act, Account::new(1));
}

#[test]
fn withdrawal_within_available() {
    let mut history = History::new();
    let mut accounts = HashMap::<u16, Account>::new();
    accounts.insert(1, account(1, 40, 0, 40, false));
    let r = apply(&mut history, &mut accounts, tx(Operation::Withdrawal, 1, 1, Some(whole(20))));
    assert_eq!(r, Ok(()));
    assert_eq!(accounts.get(&1), Some(&account(1, 20, 0, 20, false)));
}

#[test]
fn withdrawal_dispute_chargeback_locks() {
    let mut history = History::new();
    let mut accounts = HashMap::<u16, Account>::new();
    accounts.insert(1, account(1, 150, 0, 150, false));
    let w = tx(Operation::Withdrawal, 1, 1, Some(whole(50)));
    assert_eq!(apply(&mut history, &mut accounts, w), Ok(()));
    assert_eq!(accounts.get(&1), Some(&account(1, 100, 0, 100, false)));
    assert_eq!(apply(&mut history, &mut accounts, tx(Operation::Dispute, 1, 1, None)), Ok(()));
    assert_eq!(accounts.get(&1), Some(&account(1, 100, 50, 150, false)));
    assert_eq!(apply(&mut history, &mut accounts, tx(Operation::Chargeback, 1, 1, None)), Ok(()));
    assert_eq!(accounts.get(&1), Some(&account(1, 100, 0, 100, true)));
    let d = tx(Operation::Deposit, 1, 2, Some(whole(10)));
    assert_eq!(apply(&mut history, &mut accounts, d), Err(TransactionError::LockedAccount));
    assert_eq!(accounts.get(&1), Some(&account(1, 100, 0, 100, true)));
    assert_eq!(history.get(&(1, 2)), None);
}

#[test]
fn deposit_dispute_resolve_restores_balances() {
    let mut history = History::new();
    let mut accounts = HashMap::<u16, Account>::new();
    accounts.insert(1, account(1, 150, 0, 150, false));
    let d = tx(Operation::Deposit, 1, 1, Some(whole(50)));
    assert_eq!(apply(&mut history, &mut accounts, d), Ok(()));
    assert_eq!(accounts.get(&1), Some(&account(1, 200, 0, 200, false)));
    assert_eq!(apply(&mut history, &mut accounts, tx(Operation::Dispute, 1, 1, None)), Ok(()));
    assert_eq!(accounts.get(&1), Some(&account(1, 150, 50, 200, false)));
    assert_eq!(
        history.get(&(1, 1)),
        Some(&Node { op: Operation::Dispute, amount: Some(whole(-50)) })
    );
    assert_eq!(apply(&mut history, &mut accounts, tx(Operation::Resolve, 1, 1, None)), Ok(()));
    assert_eq!(accounts.get(&1), Some(&account(1, 200, 0, 200, false)));
}

#[test]
fn deposit_dispute_chargeback_keeps_total() {
    let mut history = History::new();
    let mut accounts = HashMap::<u16, Account>::new();
    accounts.insert(1, account(1, 150, 0, 150, false));
    let d = tx(Operation::Deposit, 1, 1, Some(whole(50)));
    assert_eq!(apply(&mut history, &mut accounts, d), Ok(()));
    assert_eq!(apply(&mut history, &mut accounts, tx(Operation::Dispute, 1, 1, None)), Ok(()));
    assert_eq!(apply(&mut history, &mut accounts, tx(Operation::Chargeback, 1, 1, None)), Ok(()));
    assert_eq!(accounts.get(&1), Some(&account(1, 200, 0, 200, true)));
}

#[test]
fn unknown_transaction_not_found() {
    let mut history = History::new();
    let mut accounts = HashMap::<u16, Account>::new();
    accounts.insert(1, account(1, 150, 0, 150, false));
    let d = tx(Operation::Deposit, 1, 1, Some(whole(5)));
    assert_eq!(apply(&mut history, &mut accounts, d), Ok(()));
    for op in [Operation::Dispute, Operation::Resolve, Operation::Chargeback] {
        let r = apply(&mut history, &mut accounts, tx(op, 1, 9, None));
        assert_eq!(r, Err(TransactionError::TransactionNotFound));
        assert_eq!(sorted(&accounts), vec![account(1, 155, 0, 155, false)]);
        assert_eq!(history.get(&(1, 9)), None);
        assert_eq!(
            history.get(&(1, 1)),
            Some(&Node { op: Operation::Deposit, amount: Some(whole(5)) })
        );
    }
    let r = apply(&mut history, &mut accounts, tx(Operation::Dispute, 2, 1, None));
    assert_eq!(r, Err(TransactionError::TransactionNotFound));
    assert!(accounts.get(&2).is_none());
}

#[test]
fn same_tx_id_of_two_clients_kept_apart() {
    let mut history = History::new();
    let mut accounts = HashMap::<u16, Account>::new();
    let a = tx(Operation::Deposit, 1, 7, Some(whole(10)));
    let b = tx(Operation::Deposit, 2, 7, Some(whole(30)));
    assert_eq!(apply(&mut history, &mut accounts, a), Ok(()));
    assert_eq!(apply(&mut history, &mut accounts, b), Ok(()));
    assert_eq!(apply(&mut history, &mut accounts, tx(Operation::Dispute, 2, 7, None)), Ok(()));
    assert_eq!(accounts.get(&1), Some(&account(1, 10, 0, 10, false)));
    assert_eq!(accounts.get(&2), Some(&account(2, 0, 30, 30, false)));
}

#[test]
fn same_stream_twice_gives_same_accounts() {
    let stream = vec![
        tx(Operation::Deposit, 1, 1, Some(whole(100))),
        tx(Operation::Deposit, 2, 2, Some(whole(20))),
        tx(Operation::Withdrawal, 1, 3, Some(whole(30))),
        tx(Operation::Withdrawal, 2, 4, Some(whole(50))),
        tx(Operation::Dispute, 1, 1, None),
        tx(Operation::Resolve, 1, 1, None),
        tx(Operation::Dispute, 2, 2, None),
        tx(Operation::Chargeback, 2, 2, None),
        tx(Operation::Deposit, 2, 5, Some(whole(1))),
    ];
    let mut runs = Vec::new();
    for _ in 0..2 {
        let mut history = History::new();
        let mut accounts = HashMap::<u16, Account>::new();
        for t in stream.iter() {
            let _ = apply(&mut history, &mut accounts, *t);
        }
        for a in accounts.values() {
            assert_eq!(a.total.units, a.available.units + a.held.units);
        }
        runs.push(sorted(&accounts));
    }
    assert_eq!(runs[0], runs[1]);
    assert_eq!(
        runs[0],
        vec![account(1, 70, 0, 70, false), account(2, 20, 0, 20, true)]
    );
}

#[test]
fn amounts_from_scaled_decimals() {
    assert_eq!(Amount::from_scaled(12345, 2), Some(Amount { units: 1234500 }));
    assert_eq!(Amount::from_scaled(-7, 4), Some(Amount { units: -7 }));
    assert_eq!(Amount::from_scaled(42, 0), Some(Amount { units: 420000 }));
    assert_eq!(Amount::from_scaled(1, 5), None);
    assert_eq!(Amount::from_scaled(i128::MAX, 0), None);
    assert_eq!(Amount::from_scaled(i128::MAX, 4), Some(Amount { units: i128::MAX }));
    assert_eq!(Amount::zero(), Amount { units: 0 });
}

#[test]
fn out_of_range_balance_is_refused() {
    let mut act = Account {
        client: 3,
        available: Amount { units: i128::MAX },
        held: Amount::zero(),
        total: Amount { units: i128::MAX },
        locked: false,
    };
    let before = act;
    assert_eq!(act.deposit(Some(Amount { units: 1 })), Err(TransactionError::UnspecifiedBehavior));
    assert_eq!(act, before);
    assert_eq!(act.dispute(Some(Amount { units: 1 })), Err(TransactionError::UnspecifiedBehavior));
    assert_eq!(act, before);
    assert_eq!(act.chargeback(Some(Amount { units: -1 })), Err(TransactionError::UnspecifiedBehavior));
    assert_eq!(act, before);
}

#[test]
fn disputing_most_negative_deposit_is_refused() {
    let mut history = History::new();
    let mut accounts = HashMap::<u16, Account>::new();
    let d = tx(Operation::Deposit, 4, 1, Some(Amount { units: i128::MIN }));
    assert_eq!(apply(&mut history, &mut accounts, d), Ok(()));
    let r = apply(&mut history, &mut accounts, tx(Operation::Dispute, 4, 1, None));
    assert_eq!(r, Err(TransactionError::UnspecifiedBehavior));
    assert_eq!(
        accounts.get(&4),
        Some(&Account {
            client: 4,
            available: Amount { units: i128::MIN },
            held: Amount::zero(),
            total: Amount { units: i128::MIN },
            locked: false,
        })
    );
}

#[test]
fn missing_amounts_count_as_zero() {
    let mut act = account(1, 5, 2, 7, false);
    assert_eq!(act.deposit(None), Ok(()));
    assert_eq!(act.withdraw(None), Ok(()));
    assert_eq!(act.dispute(None), Ok(()));
    assert_eq!(act.resolve(None), Ok(()));
    assert_eq!(act, account(1, 5, 2, 7, false));
    assert_eq!(act.chargeback(None), Ok(()));
    assert_eq!(act, account(1, 5, 2, 7, true));
}

#[test]
fn account_operations_by_sign() {
    let mut act = account(1, 100, 0, 100, false);
    assert_eq!(act.dispute(Some(whole(-30))), Ok(()));
    assert_eq!(act, account(1, 70, 30, 100, false));
    assert_eq!(act.resolve(Some(whole(-30))), Ok(()));
    assert_eq!(act, account(1, 100, 0, 100, false));
    assert_eq!(act.dispute(Some(whole(20))), Ok(()));
    assert_eq!(act, account(1, 100, 20, 120, false));
    assert_eq!(act.resolve(Some(whole(20))), Ok(()));
    assert_eq!(act, account(1, 100, 0, 100, false));
    assert_eq!(act.dispute(Some(whole(20))), Ok(()));
    assert_eq!(act.chargeback(Some(whole(20))), Ok(()));
    assert_eq!(act, account(1, 100, 0, 100, true));
}

#[test]
fn history_insert_returns_previous_record() {
    let mut history = History::new();
    let first = tx(Operation::Deposit, 1, 1, Some(whole(3)));
    assert_eq!(history.insert(&first), None);
    let second = tx(Operation::Dispute, 1, 1, Some(whole(-3)));
    assert_eq!(
        history.insert(&second),
        Some(Node { op: Operation::Deposit, amount: Some(whole(3)) })
    );
    assert_eq!(
        history.get(&(1, 1)),
        Some(&Node { op: Operation::Dispute, amount: Some(whole(-3)) })
    );
    assert_eq!(Node::from(&first), Node { op: Operation::Deposit, amount: Some(whole(3)) });
}

#[test]
fn locked_account_refuses_dispute_family() {
    let mut history = History::new();
    let mut accounts = HashMap::<u16, Account>::new();
    let d = tx(Operation::Deposit, 1, 1, Some(whole(10)));
    assert_eq!(apply(&mut history, &mut accounts, d), Ok(()));
    assert_eq!(apply(&mut history, &mut accounts, tx(Operation::Dispute, 1, 1, None)), Ok(()));
    assert_eq!(apply(&mut history, &mut accounts, tx(Operation::Chargeback, 1, 1, None)), Ok(()));
    let locked = *accounts.get(&1).unwrap();
    for op in [Operation::Dispute, Operation::Resolve, Operation::Chargeback] {
        let r = apply(&mut history, &mut accounts, tx(op, 1, 1, None));
        assert_eq!(r, Err(TransactionError::LockedAccount));
        assert_eq!(accounts.get(&1), Some(&locked));
    }
}

#[test]
fn resolve_of_deposit_dispute_on_held_balance() {
    let mut act = account(1, 150, 50, 200, false);
    assert_eq!(act.resolve(Some(whole(-50))), Ok(()));
    assert_eq!(act, account(1, 200, 0, 200, false));
}

#[test]
fn default_values() {
    assert_eq!(Operation::default(), Operation::Deposit);
    assert_eq!(Account::default(), Account::new(0));
    assert_eq!(Transaction::default(), tx(Operation::Deposit, 0, 0, None));
    assert_eq!(History::default().get(&(0, 0)), None);
}
