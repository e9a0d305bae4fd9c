use vstd::prelude::*;

use crate::model::{Amount, CSVRecord, ClientId, TxId, TxType};

verus! {

/// Why a record could not be applied.
#[derive(Debug, Clone, Copy, PartialEq, Eq, Structural)]
pub enum TransactionError {
    InvalidClientId,
    InsufficientFunds,
    AccountLocked,
    MissingAmount,
    /// A negative or unreadable amount, or one that would carry a balance
    /// outside the range the ledger can hold.
    InvalidAmount,
    NotStorable(TxType),
    MissingTransaction(TxId),
    DuplicateTransactionId(TxId),
}

pub type TxResult = Result<(), TransactionError>;

/// Where a stored transaction is in its dispute lifecycle.
#[derive(Debug, Clone, Copy, PartialEq, Eq, Structural)]
pub enum TransactionStatus {
    Processed,
    Disputed,
    Resolved,
    Chargedback,
}

/// A stored deposit or withdrawal.
#[derive(Debug, Clone, Copy, PartialEq, Eq, Structural)]
pub struct Transaction {
    pub tx: TxId,
    pub client: ClientId,
    pub kind: TxType,
    pub amount: Amount,
    pub status: TransactionStatus,
}

/// What reading `record` as a transaction to store gives.
pub open spec fn stored_from(record: CSVRecord) -> Result<Transaction, TransactionError> {
    match record.kind {
        TxType::Deposit | TxType::Withdrawal => match record.amount {
            Some(a) => if a.units < 0 {
                Err(TransactionError::InvalidAmount)
            } else {
                Ok(
                    Transaction {
                        tx: record.tx,
                        client: record.client,
                        kind: record.kind,
                        amount: a,
                        status: TransactionStatus::Processed,
                    },
                )
            },
            None => Err(TransactionError::MissingAmount),
        },
        _ => Err(TransactionError::NotStorable(record.kind)),
    }
}

impl Transaction {
    pub open spec fn spec_can_be_disputed(&self, record: CSVRecord) -> bool {
        &&& self.client == record.client
        &&& (self.status == TransactionStatus::Processed || self.status
            == TransactionStatus::Resolved)
    }

    /// Whether `record` names this transaction's client and the transaction
    /// is not already under dispute or charged back.
    pub fn can_be_disputed(&self, record: &CSVRecord) -> (r: bool)
        ensures
            r == self.spec_can_be_disputed(*record),
    {
        if self.client.0 != record.client.0 {
            return false;
        }
        match self.status {
            TransactionStatus::Processed | TransactionStatus::Resolved => true,
            _ => false,
        }
    }

    pub fn is_disputed(&self) -> (r: bool)
        ensures
            r == (self.status == TransactionStatus::Disputed),
    {
        match self.status {
            TransactionStatus::Disputed => true,
            _ => false,
        }
    }

    /// The transaction that a deposit or withdrawal record stores, in status
    /// `Processed`. Other kinds are not storable; the amount must be present
    /// and not negative.
    pub fn try_from(value: CSVRecord) -> (r: Result<Transaction, TransactionError>)
        ensures
            r == stored_from(value),
    {
        match value.kind {
            TxType::Deposit | TxType::Withdrawal => match value.amount {
                Some(amount) => if amount.units < 0 {
                    Err(TransactionError::InvalidAmount)
                } else {
                    Ok(
                        Transaction {
                            tx: value.tx,
                            client: value.client,
                            amount,
                            status: TransactionStatus::Processed,
                            kind: value.kind,
                        },
                    )
                },
                None => Err(TransactionError::MissingAmount),
            },
            _ => Err(TransactionError::NotStorable(value.kind)),
        }
    }
}

} // verus!
