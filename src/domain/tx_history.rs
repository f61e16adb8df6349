use std::collections::HashMap;

use vstd::prelude::*;

use super::amount::Amount;
use super::transaction::{Operation, Transaction};

verus! {

broadcast use vstd::std_specs::hash::group_hash_axioms;

/// The most recently applied record of each `(client, tx)` pair.
#[derive(Debug, Default)]
pub struct History {
    // the key packs the client and the transaction id, see `history_key`
    history: HashMap<u64, Node>,
}

/// What is kept of an applied transaction: its kind and the signed amount
/// that was actually applied.
#[derive(Clone, Copy, Debug, PartialEq, Eq, Structural)]
pub struct Node {
    pub op: Operation,
    pub amount: Option<Amount>,
}

/// The record that applying `t` leaves.
pub open spec fn node_of(t: Transaction) -> Node {
    Node { op: t.op, amount: t.amount }
}

/// The map key of `(client, tx)`: the client in the upper 32 bits.
pub open spec fn history_key(client: u16, tx: u32) -> u64 {
    (client as int * 0x1_0000_0000 + tx as int) as u64
}

proof fn lemma_history_key_injective(c1: u16, t1: u32, c2: u16, t2: u32)
    ensures
        history_key(c1, t1) == history_key(c2, t2) ==> c1 == c2 && t1 == t2,
{
}

impl View for History {
    type V = Map<(u16, u32), Node>;

    closed spec fn view(&self) -> Map<(u16, u32), Node> {
        Map::new(
            |k: (u16, u32)| self.history@.contains_key(history_key(k.0, k.1)),
            |k: (u16, u32)| self.history@[history_key(k.0, k.1)],
        )
    }
}

impl History {
    /// An empty history.
    pub fn new() -> (r: History)
        ensures
            r@ == Map::<(u16, u32), Node>::empty(),
    {
        let r = History { history: HashMap::<u64, Node>::new() };
        assert(r@ =~= Map::<(u16, u32), Node>::empty());
        r
    }

    /// Records `tx` under its `(client, tx)` pair, over any earlier record,
    /// and returns the earlier one.
    pub fn insert(&mut self, tx: &Transaction) -> (r: Option<Node>)
        ensures
            final(self)@ == old(self)@.insert((tx.client, tx.tx), node_of(*tx)),
            r == old(self)@.get((tx.client, tx.tx)),
    {
        let node = Node::from(tx);
        let key: u64 = tx.client as u64 * 0x1_0000_0000 + tx.tx as u64;
        let r = self.history.insert(key, node);
        proof {
            assert forall|c1: u16, t1: u32, c2: u16, t2: u32|
                history_key(c1, t1) == history_key(c2, t2) implies c1 == c2 && t1 == t2 by {
                lemma_history_key_injective(c1, t1, c2, t2);
            }
            assert(final(self)@ =~= old(self)@.insert((tx.client, tx.tx), node_of(*tx)));
        }
        r
    }

    /// The latest record of the pair `key`, if there is one.
    pub fn get(&self, key: &(u16, u32)) -> (r: Option<&Node>)
        ensures
            match r {
                Some(n) => self@.contains_key(*key) && self@[*key] == *n,
                None => !self@.contains_key(*key),
            },
    {
        let k: u64 = key.0 as u64 * 0x1_0000_0000 + key.1 as u64;
        self.history.get(&k)
    }
}

impl<'b> From<&'b Transaction> for Node {
    fn from(value: &'b Transaction) -> (r: Node)
        ensures
            r == node_of(*value),
    {
        Node { op: value.op, amount: value.amount }
    }
}

impl<'b> vstd::std_specs::convert::FromSpecImpl<&'b Transaction> for Node {
    open spec fn obeys_from_spec() -> bool {
        true
    }

    open spec fn from_spec(v: &'b Transaction) -> Node {
        node_of(*v)
    }
}

} // verus!
