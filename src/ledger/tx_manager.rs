use vstd::prelude::*;

use std::collections::BTreeMap;

use crate::model::TxId;
use crate::transaction::{Transaction, TransactionError, TransactionStatus, TxResult};

verus! {

/// Stored deposits and withdrawals keyed by transaction id. Entries are
/// inserted once and never removed; only their status changes.
pub struct TxManager {
    transactions: BTreeMap<u32, Transaction>,
}

impl View for TxManager {
    type V = Map<u32, Transaction>;

    closed spec fn view(&self) -> Map<u32, Transaction> {
        self.transactions@
    }
}

/// `t` with its status replaced by `status`.
pub open spec fn with_status(t: Transaction, status: TransactionStatus) -> Transaction {
    Transaction { tx: t.tx, client: t.client, kind: t.kind, amount: t.amount, status }
}

impl TxManager {
    pub fn new() -> (r: TxManager)
        ensures
            r@ == Map::<u32, Transaction>::empty(),
    {
        TxManager { transactions: BTreeMap::new() }
    }

    /// Stores `transaction` unless its id is taken; returns whether it was stored.
    pub fn insert(&mut self, transaction: Transaction) -> (r: bool)
        ensures
            r == !old(self)@.contains_key(transaction.tx.0),
            final(self)@ == if r {
                old(self)@.insert(transaction.tx.0, transaction)
            } else {
                old(self)@
            },
    {
        if self.transactions.contains_key(&transaction.tx.0) {
            false
        } else {
            self.transactions.insert(transaction.tx.0, transaction);
            true
        }
    }

    pub fn contains(&self, tx: TxId) -> (r: bool)
        ensures
            r == self@.contains_key(tx.0),
    {
        self.transactions.contains_key(&tx.0)
    }

    pub fn get(&self, tx: TxId) -> (r: Option<&Transaction>)
        ensures
            match r {
                Some(t) => self@.contains_key(tx.0) && self@[tx.0] == *t,
                None => !self@.contains_key(tx.0),
            },
    {
        self.transactions.get(&tx.0)
    }

    /// Sets the status of a stored transaction.
    pub fn set_status(&mut self, tx: TxId, status: TransactionStatus) -> (r: TxResult)
        ensures
            old(self)@.contains_key(tx.0) ==> r == Ok::<(), TransactionError>(()) && final(self)@
                == old(self)@.insert(tx.0, with_status(old(self)@[tx.0], status)),
            !old(self)@.contains_key(tx.0) ==> r == Err::<(), TransactionError>(
                TransactionError::MissingTransaction(tx),
            ) && final(self)@ == old(self)@,
    {
        match self.transactions.get(&tx.0) {
            Some(t) => {
                let updated = Transaction {
                    tx: t.tx,
                    client: t.client,
                    kind: t.kind,
                    amount: t.amount,
                    status,
                };
                self.transactions.insert(tx.0, updated);
                Ok(())
            },
            None => Err(TransactionError::MissingTransaction(tx)),
        }
    }

    pub fn is_disputed(&self, tx: TxId) -> (r: bool)
        ensures
            r == (self@.contains_key(tx.0) && self@[tx.0].status == TransactionStatus::Disputed),
    {
        match self.transactions.get(&tx.0) {
            Some(t) => t.is_disputed(),
            None => false,
        }
    }

    pub fn tx_count(&self) -> (r: usize)
        ensures
            r == self@.len(),
    {
        self.transactions.len()
    }
}

impl Default for TxManager {
    fn default() -> (r: TxManager)
        ensures
            r@ == Map::<u32, Transaction>::empty(),
    {
        TxManager::new()
    }
}

} // verus!
