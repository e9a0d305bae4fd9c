use vstd::prelude::*;

use crate::ledger::client_manager::{
    account_or_fresh, accounts_wf, ClientAccount, ClientAccountManager, ClientAccountStatus,
};
use crate::ledger::laws::{held_matches_disputes, law_held_is_open_disputes, law_held_starts_at_zero};
use crate::ledger::tx_manager::{with_status, TxManager};
use crate::model::{in_balance_range, Amount, CSVRecord, TxType, MAX_BALANCE};
use crate::transaction::{
    stored_from, Transaction, TransactionError, TransactionStatus, TxResult,
};

verus! {

/// Client accounts, stored transactions, and the result of one record.
pub type Outcome = (Map<u16, ClientAccount>, Map<u32, Transaction>, TxResult);

pub open spec fn unchanged(
    accounts: Map<u16, ClientAccount>,
    txs: Map<u32, Transaction>,
    e: TransactionError,
) -> Outcome {
    (accounts, txs, Err(e))
}

pub open spec fn balances(a: ClientAccount, available: int, held: int) -> ClientAccount {
    ClientAccount {
        available: Amount { units: available as i128 },
        held: Amount { units: held as i128 },
        status: a.status,
    }
}

/// The amount a withdrawal asks for, zero where it names none.
pub open spec fn amount_or_zero(amount: Option<Amount>) -> int {
    match amount {
        Some(a) => a.units as int,
        None => 0,
    }
}

/// A deposit: refused for a taken id or a locked account, then the amount is
/// checked and credited to the available funds.
pub open spec fn deposit_outcome(
    accounts: Map<u16, ClientAccount>,
    txs: Map<u32, Transaction>,
    r: CSVRecord,
) -> Outcome {
    let a = account_or_fresh(accounts, r.client.0);
    if txs.contains_key(r.tx.0) {
        unchanged(accounts, txs, TransactionError::DuplicateTransactionId(r.tx))
    } else if a.status == ClientAccountStatus::Locked {
        unchanged(accounts, txs, TransactionError::AccountLocked)
    } else {
        match stored_from(r) {
            Err(e) => unchanged(accounts, txs, e),
            Ok(t) => {
                let available = a.available.units + t.amount.units;
                if !in_balance_range(available) {
                    unchanged(accounts, txs, TransactionError::InvalidAmount)
                } else {
                    (
                        accounts.insert(r.client.0, balances(a, available, a.held.units as int)),
                        txs.insert(r.tx.0, t),
                        Ok(()),
                    )
                }
            },
        }
    }
}

/// A withdrawal: refused for a taken id, a locked account, or available funds
/// below the amount; then the amount is checked and debited.
pub open spec fn withdrawal_outcome(
    accounts: Map<u16, ClientAccount>,
    txs: Map<u32, Transaction>,
    r: CSVRecord,
) -> Outcome {
    let a = account_or_fresh(accounts, r.client.0);
    if txs.contains_key(r.tx.0) {
        unchanged(accounts, txs, TransactionError::DuplicateTransactionId(r.tx))
    } else if a.status == ClientAccountStatus::Locked {
        unchanged(accounts, txs, TransactionError::AccountLocked)
    } else if a.available.units < amount_or_zero(r.amount) {
        unchanged(accounts, txs, TransactionError::InsufficientFunds)
    } else {
        match stored_from(r) {
            Err(e) => unchanged(accounts, txs, e),
            Ok(t) => (
                accounts.insert(
                    r.client.0,
                    balances(a, a.available.units - t.amount.units, a.held.units as int),
                ),
                txs.insert(r.tx.0, t),
                Ok(()),
            ),
        }
    }
}

/// A dispute: the transaction must exist and belong to the record's client.
/// An undisputed deposit has its amount moved from available to held funds;
/// anything else is left alone.
pub open spec fn dispute_outcome(
    accounts: Map<u16, ClientAccount>,
    txs: Map<u32, Transaction>,
    r: CSVRecord,
) -> Outcome {
    if !txs.contains_key(r.tx.0) {
        unchanged(accounts, txs, TransactionError::MissingTransaction(r.tx))
    } else {
        let t = txs[r.tx.0];
        if t.client != r.client {
            unchanged(accounts, txs, TransactionError::InvalidClientId)
        } else if t.kind != TxType::Deposit || !t.spec_can_be_disputed(r) {
            (accounts, txs, Ok(()))
        } else {
            let a = account_or_fresh(accounts, r.client.0);
            let available = a.available.units - t.amount.units;
            let held = a.held.units + t.amount.units;
            if !in_balance_range(available) || !in_balance_range(held) {
                unchanged(accounts, txs, TransactionError::InvalidAmount)
            } else {
                (
                    accounts.insert(r.client.0, balances(a, available, held)),
                    txs.insert(r.tx.0, with_status(t, TransactionStatus::Disputed)),
                    Ok(()),
                )
            }
        }
    }
}

/// A resolve: the transaction must exist. A disputed one has its amount moved
/// back from held to available funds of the client it belongs to; anything
/// else is left alone.
pub open spec fn resolve_outcome(
    accounts: Map<u16, ClientAccount>,
    txs: Map<u32, Transaction>,
    r: CSVRecord,
) -> Outcome {
    if !txs.contains_key(r.tx.0) {
        unchanged(accounts, txs, TransactionError::MissingTransaction(r.tx))
    } else {
        let t = txs[r.tx.0];
        if t.status != TransactionStatus::Disputed {
            (accounts, txs, Ok(()))
        } else {
            let a = account_or_fresh(accounts, t.client.0);
            let available = a.available.units + t.amount.units;
            let held = a.held.units - t.amount.units;
            if !in_balance_range(available) || !in_balance_range(held) {
                unchanged(accounts, txs, TransactionError::InvalidAmount)
            } else {
                (
                    accounts.insert(t.client.0, balances(a, available, held)),
                    txs.insert(r.tx.0, with_status(t, TransactionStatus::Resolved)),
                    Ok(()),
                )
            }
        }
    }
}

/// A chargeback: the transaction must exist and belong to the record's
/// client. A disputed deposit has its amount taken from held funds and the
/// account is locked; anything else is left alone.
pub open spec fn chargeback_outcome(
    accounts: Map<u16, ClientAccount>,
    txs: Map<u32, Transaction>,
    r: CSVRecord,
) -> Outcome {
    if !txs.contains_key(r.tx.0) {
        unchanged(accounts, txs, TransactionError::MissingTransaction(r.tx))
    } else {
        let t = txs[r.tx.0];
        if t.client != r.client {
            unchanged(accounts, txs, TransactionError::InvalidClientId)
        } else if t.status != TransactionStatus::Disputed || t.kind != TxType::Deposit {
            (accounts, txs, Ok(()))
        } else {
            let a = account_or_fresh(accounts, r.client.0);
            let held = a.held.units - t.amount.units;
            if !in_balance_range(held) {
                unchanged(accounts, txs, TransactionError::InvalidAmount)
            } else {
                (
                    accounts.insert(
                        r.client.0,
                        ClientAccount {
                            available: a.available,
                            held: Amount { units: held as i128 },
                            status: ClientAccountStatus::Locked,
                        },
                    ),
                    txs.insert(r.tx.0, with_status(t, TransactionStatus::Chargedback)),
                    Ok(()),
                )
            }
        }
    }
}

/// What applying record `r` to the stores gives.
pub open spec fn process_outcome(
    accounts: Map<u16, ClientAccount>,
    txs: Map<u32, Transaction>,
    r: CSVRecord,
) -> Outcome {
    match r.kind {
        TxType::Deposit => deposit_outcome(accounts, txs, r),
        TxType::Withdrawal => withdrawal_outcome(accounts, txs, r),
        TxType::Dispute => dispute_outcome(accounts, txs, r),
        TxType::Resolve => resolve_outcome(accounts, txs, r),
        TxType::Chargeback => chargeback_outcome(accounts, txs, r),
    }
}

/// `a + b` where it is a balance the ledger can hold.
fn balance_add(a: i128, b: i128) -> (r: Option<i128>)
    ensures
        r == if in_balance_range(a + b) {
            Some((a + b) as i128)
        } else {
            None::<i128>
        },
{
    match a.checked_add(b) {
        Some(v) => if -MAX_BALANCE <= v && v <= MAX_BALANCE {
            Some(v)
        } else {
            None
        },
        None => None,
    }
}

/// `a - b` where it is a balance the ledger can hold.
fn balance_sub(a: i128, b: i128) -> (r: Option<i128>)
    ensures
        r == if in_balance_range(a - b) {
            Some((a - b) as i128)
        } else {
            None::<i128>
        },
{
    match a.checked_sub(b) {
        Some(v) => if -MAX_BALANCE <= v && v <= MAX_BALANCE {
            Some(v)
        } else {
            None
        },
        None => None,
    }
}

/// The ledger: client accounts and stored transactions, changed one record at a time.
pub struct PaymentsEngine {
    pub client_manager: ClientAccountManager,
    pub tx_manager: TxManager,
}

impl PaymentsEngine {
    /// Every balance is in range, and every client's held funds are exactly
    /// the amounts of its open disputes.
    pub open spec fn wf(&self) -> bool {
        &&& self.client_manager.wf()
        &&& self.txs().dom().finite()
        &&& held_matches_disputes(self.accounts(), self.txs())
    }

    pub open spec fn accounts(&self) -> Map<u16, ClientAccount> {
        self.client_manager.accounts@
    }

    pub open spec fn txs(&self) -> Map<u32, Transaction> {
        self.tx_manager@
    }

    pub fn new() -> (r: PaymentsEngine)
        ensures
            r.wf(),
            r.accounts() == Map::<u16, ClientAccount>::empty(),
            r.txs() == Map::<u32, Transaction>::empty(),
    {
        proof {
            law_held_starts_at_zero();
        }
        PaymentsEngine { client_manager: ClientAccountManager::new(), tx_manager: TxManager::new() }
    }

    /// The stored account of `client`, or a fresh one; nothing is stored.
    fn account_of(&self, client: crate::model::ClientId) -> (r: ClientAccount)
        requires
            self.wf(),
        ensures
            r == account_or_fresh(self.accounts(), client.0),
            r.wf(),
    {
        match self.client_manager.get(client) {
            Some(a) => a,
            None => ClientAccount::default(),
        }
    }

    /// Applies a deposit record (see `deposit_outcome`).
    pub fn process_deposit(&mut self, record: CSVRecord) -> (r: TxResult)
        requires
            old(self).wf(),
            record.kind == TxType::Deposit,
        ensures
            final(self).wf(),
            (final(self).accounts(), final(self).txs(), r) == deposit_outcome(
                old(self).accounts(),
                old(self).txs(),
                record,
            ),
    {
        proof {
            law_held_is_open_disputes(old(self).accounts(), old(self).txs(), record);
        }
        if self.tx_manager.contains(record.tx) {
            return Err(TransactionError::DuplicateTransactionId(record.tx));
        }
        let account = self.account_of(record.client);
        if account.is_locked() {
            return Err(TransactionError::AccountLocked);
        }
        let tx = match Transaction::try_from(record) {
            Ok(t) => t,
            Err(e) => return Err(e),
        };
        let available = match balance_add(account.available.units, tx.amount.units) {
            Some(v) => v,
            None => return Err(TransactionError::InvalidAmount),
        };
        self.client_manager.put(
            record.client,
            ClientAccount { available: Amount { units: available }, held: account.held, status: account.status },
        );
        self.tx_manager.insert(tx);
        Ok(())
    }

    /// Applies a withdrawal record (see `withdrawal_outcome`).
    pub fn process_withdrawal(&mut self, record: CSVRecord) -> (r: TxResult)
        requires
            old(self).wf(),
            record.kind == TxType::Withdrawal,
        ensures
            final(self).wf(),
            (final(self).accounts(), final(self).txs(), r) == withdrawal_outcome(
                old(self).accounts(),
                old(self).txs(),
                record,
            ),
    {
        proof {
            law_held_is_open_disputes(old(self).accounts(), old(self).txs(), record);
        }
        if self.tx_manager.contains(record.tx) {
            return Err(TransactionError::DuplicateTransactionId(record.tx));
        }
        let account = self.account_of(record.client);
        if account.is_locked() {
            return Err(TransactionError::AccountLocked);
        }
        let wanted: i128 = match record.amount {
            Some(a) => a.units,
            None => 0,
        };
        if account.available.units < wanted {
            return Err(TransactionError::InsufficientFunds);
        }
        let tx = match Transaction::try_from(record) {
            Ok(t) => t,
            Err(e) => return Err(e),
        };
        let available = account.available.units - tx.amount.units;
        self.client_manager.put(
            record.client,
            ClientAccount { available: Amount { units: available }, held: account.held, status: account.status },
        );
        self.tx_manager.insert(tx);
        Ok(())
    }

    /// Applies a dispute record (see `dispute_outcome`).
    pub fn process_dispute(&mut self, record: CSVRecord) -> (r: TxResult)
        requires
            old(self).wf(),
            record.kind == TxType::Dispute,
        ensures
            final(self).wf(),
            (final(self).accounts(), final(self).txs(), r) == dispute_outcome(
                old(self).accounts(),
                old(self).txs(),
                record,
            ),
    {
        proof {
            law_held_is_open_disputes(old(self).accounts(), old(self).txs(), record);
        }
        let transaction = match self.tx_manager.get(record.tx) {
            Some(t) => *t,
            None => return Err(TransactionError::MissingTransaction(record.tx)),
        };
        if transaction.client.0 != record.client.0 {
            return Err(TransactionError::InvalidClientId);
        }
        let is_deposit = match transaction.kind {
            TxType::Deposit => true,
            _ => false,
        };
        if !is_deposit || !transaction.can_be_disputed(&record) {
            return Ok(());
        }
        let account = self.account_of(record.client);
        let available = match balance_sub(account.available.units, transaction.amount.units) {
            Some(v) => v,
            None => return Err(TransactionError::InvalidAmount),
        };
        let held = match balance_add(account.held.units, transaction.amount.units) {
            Some(v) => v,
            None => return Err(TransactionError::InvalidAmount),
        };
        self.client_manager.put(
            record.client,
            ClientAccount { available: Amount { units: available }, held: Amount { units: held }, status: account.status },
        );
        self.tx_manager.set_status(record.tx, TransactionStatus::Disputed)
    }

    /// Applies a resolve record (see `resolve_outcome`).
    pub fn process_resolve(&mut self, record: CSVRecord) -> (r: TxResult)
        requires
            old(self).wf(),
            record.kind == TxType::Resolve,
        ensures
            final(self).wf(),
            (final(self).accounts(), final(self).txs(), r) == resolve_outcome(
                old(self).accounts(),
                old(self).txs(),
                record,
            ),
    {
        proof {
            law_held_is_open_disputes(old(self).accounts(), old(self).txs(), record);
        }
        let transaction = match self.tx_manager.get(record.tx) {
            Some(t) => *t,
            None => return Err(TransactionError::MissingTransaction(record.tx)),
        };
        if !transaction.is_disputed() {
            return Ok(());
        }
        let account = self.account_of(transaction.client);
        let available = match balance_add(account.available.units, transaction.amount.units) {
            Some(v) => v,
            None => return Err(TransactionError::InvalidAmount),
        };
        let held = match balance_sub(account.held.units, transaction.amount.units) {
            Some(v) => v,
            None => return Err(TransactionError::InvalidAmount),
        };
        self.client_manager.put(
            transaction.client,
            ClientAccount { available: Amount { units: available }, held: Amount { units: held }, status: account.status },
        );
        self.tx_manager.set_status(record.tx, TransactionStatus::Resolved)
    }

    /// Applies a chargeback record (see `chargeback_outcome`).
    pub fn process_chargeback(&mut self, record: CSVRecord) -> (r: TxResult)
        requires
            old(self).wf(),
            record.kind == TxType::Chargeback,
        ensures
            final(self).wf(),
            (final(self).accounts(), final(self).txs(), r) == chargeback_outcome(
                old(self).accounts(),
                old(self).txs(),
                record,
            ),
    {
        proof {
            law_held_is_open_disputes(old(self).accounts(), old(self).txs(), record);
        }
        let transaction = match self.tx_manager.get(record.tx) {
            Some(t) => *t,
            None => return Err(TransactionError::MissingTransaction(record.tx)),
        };
        if transaction.client.0 != record.client.0 {
            return Err(TransactionError::InvalidClientId);
        }
        let is_deposit = match transaction.kind {
            TxType::Deposit => true,
            _ => false,
        };
        if !transaction.is_disputed() || !is_deposit {
            return Ok(());
        }
        let account = self.account_of(record.client);
        let held = match balance_sub(account.held.units, transaction.amount.units) {
            Some(v) => v,
            None => return Err(TransactionError::InvalidAmount),
        };
        self.client_manager.put(
            record.client,
            ClientAccount { available: account.available, held: Amount { units: held }, status: ClientAccountStatus::Locked },
        );
        self.tx_manager.set_status(record.tx, TransactionStatus::Chargedback)
    }

    /// Applies one record. A failed record changes nothing; every account
    /// keeps its balances in range.
    pub fn process_csv_record(&mut self, record: CSVRecord) -> (r: TxResult)
        requires
            old(self).wf(),
        ensures
            final(self).wf(),
            (final(self).accounts(), final(self).txs(), r) == process_outcome(
                old(self).accounts(),
                old(self).txs(),
                record,
            ),
    {
        match record.kind {
            TxType::Deposit => self.process_deposit(record),
            TxType::Withdrawal => self.process_withdrawal(record),
            TxType::Dispute => self.process_dispute(record),
            TxType::Resolve => self.process_resolve(record),
            TxType::Chargeback => self.process_chargeback(record),
        }
    }
}

impl Default for PaymentsEngine {
    fn default() -> (r: PaymentsEngine)
        ensures
            r.wf(),
            r.accounts() == Map::<u16, ClientAccount>::empty(),
            r.txs() == Map::<u32, Transaction>::empty(),
    {
        PaymentsEngine::new()
    }
}

} // verus!
