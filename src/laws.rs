use vstd::prelude::*;

use crate::domain::account::Account;
use crate::domain::amount::Amount;
use crate::domain::errors::TransactionError;
use crate::domain::transaction::{apply_spec, Transaction};
use crate::domain::tx_history::Node;
use crate::engine::{account_of, fetch_spec, process_spec, Committed};

verus! {

/// Every account of the ledger is balanced.
pub open spec fn ledger_balanced(ledger: Map<u16, Account>) -> bool {
    forall|c: u16| #[trigger] ledger.contains_key(c) ==> ledger[c].wf()
}

/// Applying a transaction to a balanced account leaves it balanced.
pub proof fn lemma_apply_keeps_balanced(t: Transaction, a: Account)
    requires
        a.wf(),
    ensures
        apply_spec(t, a) is Ok ==> apply_spec(t, a)->Ok_0.wf(),
{
}

/// A transaction applied to a ledger whose accounts are all balanced
/// leaves every account balanced: `total == available + held` holds of
/// every account, before and after each transaction.
pub proof fn lemma_process_keeps_balanced(
    ledger: Map<u16, Account>,
    hist: Map<(u16, u32), Node>,
    t: Transaction,
)
    requires
        ledger_balanced(ledger),
    ensures
        process_spec(ledger, hist, t) is Ok ==> ledger_balanced(process_spec(ledger, hist, t)->Ok_0.0),
{
    let a = account_of(ledger, t.client);
    assert(a.wf());
    match fetch_spec(hist, t) {
        Ok(t2) => lemma_apply_keeps_balanced(t2, a),
        Err(_) => {},
    }
    lemma_apply_keeps_balanced(t, a);
}

/// A transaction for a locked account fails, so none changes its balances.
pub proof fn lemma_locked_account_frozen(
    ledger: Map<u16, Account>,
    hist: Map<(u16, u32), Node>,
    t: Transaction,
)
    requires
        ledger.contains_key(t.client),
        ledger[t.client].locked,
    ensures
        process_spec(ledger, hist, t) is Err,
        t.op is Deposit || t.op is Withdrawal ==> process_spec(ledger, hist, t) == Err::<
            Committed,
            TransactionError,
        >(TransactionError::LockedAccount),
{
}

/// A resolve with the signed amount of a dispute that went through undoes
/// it exactly: the balances from before the dispute come back.
pub proof fn lemma_resolve_undoes_dispute(a: Account, amt: Option<Amount>)
    requires
        a.dispute_spec(amt) is Ok,
    ensures
        a.dispute_spec(amt)->Ok_0.resolve_spec(amt) == Ok::<Account, TransactionError>(a),
{
}

/// A resolve right after a dispute of the same `(client, tx)` pair goes
/// through and gives the client's account back its balances from before
/// the dispute.
pub proof fn lemma_resolve_after_dispute(
    ledger: Map<u16, Account>,
    hist: Map<(u16, u32), Node>,
    dispute: Transaction,
    resolve: Transaction,
)
    requires
        dispute.op is Dispute,
        resolve.op is Resolve,
        resolve.client == dispute.client,
        resolve.tx == dispute.tx,
        process_spec(ledger, hist, dispute) is Ok,
    ensures
        ({
            let a = account_of(ledger, dispute.client);
            let (l1, h1) = process_spec(ledger, hist, dispute)->Ok_0;
            &&& process_spec(l1, h1, resolve) is Ok
            &&& process_spec(l1, h1, resolve)->Ok_0.0 == ledger.insert(dispute.client, a)
            &&& process_spec(l1, h1, resolve)->Ok_0.0[dispute.client] == a
        }),
{
    let a = account_of(ledger, dispute.client);
    let t2 = fetch_spec(hist, dispute)->Ok_0;
    lemma_resolve_undoes_dispute(a, t2.amount);
    let (l1, h1) = process_spec(ledger, hist, dispute)->Ok_0;
    assert(l1.contains_key(dispute.client));
    assert(h1.contains_key((dispute.client, dispute.tx)));
    let l2 = process_spec(l1, h1, resolve)->Ok_0.0;
    assert(l2 =~= ledger.insert(dispute.client, a));
}

/// The outcome of a stream of transactions applied in order, each one that
/// fails leaving the ledger and the history as they were.
pub open spec fn replay(
    ledger: Map<u16, Account>,
    hist: Map<(u16, u32), Node>,
    txs: Seq<Transaction>,
) -> Committed
    decreases txs.len(),
{
    if txs.len() == 0 {
        (ledger, hist)
    } else {
        let (l1, h1) = match process_spec(ledger, hist, txs[0]) {
            Ok(c) => c,
            Err(_) => (ledger, hist),
        };
        replay(l1, h1, txs.drop_first())
    }
}

/// Every account reachable from balanced accounts through a stream of
/// transactions is balanced.
pub proof fn lemma_replay_keeps_balanced(
    ledger: Map<u16, Account>,
    hist: Map<(u16, u32), Node>,
    txs: Seq<Transaction>,
)
    requires
        ledger_balanced(ledger),
    ensures
        ledger_balanced(replay(ledger, hist, txs).0),
    decreases txs.len(),
{
    if txs.len() > 0 {
        lemma_process_keeps_balanced(ledger, hist, txs[0]);
        let (l1, h1) = match process_spec(ledger, hist, txs[0]) {
            Ok(c) => c,
            Err(_) => (ledger, hist),
        };
        lemma_replay_keeps_balanced(l1, h1, txs.drop_first());
    }
}

/// Once an account is locked, no later transaction of a stream changes it.
pub proof fn lemma_replay_keeps_locked(
    ledger: Map<u16, Account>,
    hist: Map<(u16, u32), Node>,
    txs: Seq<Transaction>,
    client: u16,
)
    requires
        ledger.contains_key(client),
        ledger[client].locked,
    ensures
        replay(ledger, hist, txs).0.contains_key(client),
        replay(ledger, hist, txs).0[client] == ledger[client],
    decreases txs.len(),
{
    if txs.len() > 0 {
        let (l1, h1) = match process_spec(ledger, hist, txs[0]) {
            Ok(c) => c,
            Err(_) => (ledger, hist),
        };
        if txs[0].client == client {
            lemma_locked_account_frozen(ledger, hist, txs[0]);
        }
        assert(l1.contains_key(client) && l1[client] == ledger[client]);
        lemma_replay_keeps_locked(l1, h1, txs.drop_first(), client);
    }
}

/// The same stream applied through two fresh ledgers and histories ends in
/// the same accounts and records.
pub proof fn lemma_replay_deterministic(
    txs: Seq<Transaction>,
    ledger1: Map<u16, Account>,
    hist1: Map<(u16, u32), Node>,
    ledger2: Map<u16, Account>,
    hist2: Map<(u16, u32), Node>,
)
    requires
        ledger1 == Map::<u16, Account>::empty(),
        ledger2 == Map::<u16, Account>::empty(),
        hist1 == Map::<(u16, u32), Node>::empty(),
        hist2 == Map::<(u16, u32), Node>::empty(),
    ensures
        replay(ledger1, hist1, txs) == replay(ledger2, hist2, txs),
{
}

} // verus!
