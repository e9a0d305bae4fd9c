use silhouette::ledger::client_manager::{ClientAccount, ClientAccountManager, ClientAccountStatus};
use silhouette::ledger::engine::PaymentsEngine;
use silhouette::ledger::tx_manager::TxManager;
use silhouette::model::{parse_amount, Amount, CSVRecord, ClientId, TxId, TxType};
use silhouette::transaction::{Transaction, TransactionError, TransactionStatus};

fn record(kind: TxType, client: u16, tx: u32, amount: &str) -> CSVRecord {
    CSVRecord {
        kind,
        client: ClientId(client),
        tx: TxId(tx),
        amount: parse_amount(amount).unwrap(),
    }
}

fn run(engine: &mut PaymentsEngine, records: &[CSVRecord]) -> Vec<Result<(), TransactionError>> {
    records.iter().map(|r| engine.process_csv_record(*r)).collect()
}

fn units(whole: i128) -> Amount {
    Amount::from_units(whole * 10_000)
}

#[test]
fn test_get_or_initialise() {
    let mut manager = ClientAccountManager::default();
    let test_client = ClientId(1);

    let account_state = manager.get_or_initialise(test_client);

    assert_eq!(account_state.available, Amount::zero());
    assert_eq!(account_state.held, Amount::zero());
    assert_eq!(account_state.status, ClientAccountStatus::Active);
    assert_eq!(account_state.total(), Amount::zero());
    assert_eq!(manager.client_count(), 1);
}

#[test]
fn test_tx_manager_handles_storage_correctly() {
    let mut manager = TxManager::default();

    let valid_record = record(TxType::Deposit, 1, 1, "1.1");
    let valid_record = Transaction::try_from(valid_record).unwrap();
    assert!(manager.insert(valid_record));

    manager.set_status(TxId(1), TransactionStatus::Disputed).unwrap();
    assert!(manager.is_disputed(TxId(1)));

    let invalid_record = record(TxType::Deposit, 1, 2, "");

    let tx = Transaction::try_from(invalid_record);
    assert!(matches!(tx, Err(TransactionError::MissingAmount)));
}

#[test]
fn test_deposits_and_withdrawls() {
    let mut payment_engine = PaymentsEngine::default();

    let valid_deposit = record(TxType::Deposit, 1, 1, "1.1");
    let valid_withdraw = record(TxType::Withdrawal, 1, 2, "1.1");

    payment_engine.process_csv_record(valid_deposit).unwrap();
    payment_engine.process_csv_record(valid_withdraw).unwrap();

    assert_eq!(2, payment_engine.tx_manager.tx_count());
    assert_eq!(1, payment_engine.client_manager.client_count());
}

#[test]
fn test_withdrawal_with_insufficient_funds() {
    let mut payment_engine = PaymentsEngine::default();
    let results = run(
        &mut payment_engine,
        &[
            record(TxType::Deposit, 1, 1, "100.0"),
            record(TxType::Withdrawal, 1, 2, "200.0"),
        ],
    );
    assert!(matches!(results[1], Err(TransactionError::InsufficientFunds)));

    let expected = units(100);
    let total = payment_engine.client_manager.get_or_initialise(ClientId(1)).total();
    assert_eq!(total, expected);
}

#[test]
fn test_resolve_dsputed_transaction() {
    let mut payment_engine = PaymentsEngine::default();
    let results = run(
        &mut payment_engine,
        &[
            record(TxType::Deposit, 1, 1, "100.0"),
            record(TxType::Dispute, 1, 1, ""),
            record(TxType::Dispute, 1, 1, ""),
            record(TxType::Resolve, 1, 1, ""),
            record(TxType::Dispute, 1, 2, ""),
            record(TxType::Dispute, 1, 1, ""),
            record(TxType::Resolve, 1, 1, ""),
            record(TxType::Resolve, 1, 1, ""),
        ],
    );
    for (idx, result) in results.iter().enumerate() {
        if idx == 4 {
            assert!(result.is_err());
            assert!(matches!(result.unwrap_err(), TransactionError::MissingTransaction(_)))
        } else {
            assert!(result.is_ok());
        }
    }

    let expected = units(100);
    let total = payment_engine.client_manager.get_or_initialise(ClientId(1)).total();
    assert_eq!(total, expected);
}

#[test]
fn test_chargeback() {
    let mut payment_engine = PaymentsEngine::default();
    let results = run(
        &mut payment_engine,
        &[
            record(TxType::Deposit, 1, 1, "100.0"),
            record(TxType::Dispute, 1, 1, ""),
            record(TxType::Chargeback, 1, 1, ""),
            record(TxType::Deposit, 1, 2, "100.0"),
        ],
    );
    for (idx, result) in results.iter().enumerate() {
        if idx == 3 {
            assert!(result.is_err());
            assert!(matches!(result.unwrap_err(), TransactionError::AccountLocked))
        } else {
            assert!(result.is_ok());
        }
    }

    let account = payment_engine.client_manager.get_or_initialise(ClientId(1));

    let is_locked = account.is_locked();
    assert!(is_locked);

    let total = account.total();
    assert_eq!(total, Amount::zero());
}

#[test]
fn test_non_matching_client_ids() {
    let mut payment_engine = PaymentsEngine::default();
    let _ = run(
        &mut payment_engine,
        &[
            record(TxType::Deposit, 1, 1, "100.0"),
            record(TxType::Dispute, 2, 1, ""),
            record(TxType::Resolve, 1, 1, ""),
        ],
    );

    let is_disputed = payment_engine.tx_manager.is_disputed(TxId(1));
    assert!(!is_disputed);
}

#[test]
fn should_not_allow_duplicate_transactions() {
    let mut payment_engine = PaymentsEngine::default();
    let _ = run(
        &mut payment_engine,
        &[
            record(TxType::Deposit, 1, 1, "100.0"),
            record(TxType::Deposit, 1, 1, "100.0"),
        ],
    );

    let expected = units(100);
    let total = payment_engine.client_manager.get_or_initialise(ClientId(1)).total();
    assert_eq!(total, expected);
}

#[test]
fn should_not_deposit_or_withdraws_if_locked() {
    let mut payment_engine = PaymentsEngine::default();
    let _ = run(
        &mut payment_engine,
        &[
            record(TxType::Chargeback, 1, 1, ""),
            record(TxType::Deposit, 1, 1, "100.0"),
            record(TxType::Withdrawal, 1, 2, "100.0"),
        ],
    );

    let account = payment_engine.client_manager.get_or_initialise(ClientId(1));
    assert!(!account.is_locked());
}

#[test]
fn duplicate_withdrawal_leaves_stores_unchanged() {
    let mut engine = PaymentsEngine::default();
    engine.process_csv_record(record(TxType::Deposit, 1, 1, "50")).unwrap();
    engine.process_csv_record(record(TxType::Withdrawal, 1, 2, "10")).unwrap();
    let result = engine.process_csv_record(record(TxType::Withdrawal, 1, 2, "10"));
    assert_eq!(result, Err(TransactionError::DuplicateTransactionId(TxId(2))));
    let result = engine.process_csv_record(record(TxType::Deposit, 1, 1, "10"));
    assert_eq!(result, Err(TransactionError::DuplicateTransactionId(TxId(1))));
    assert_eq!(engine.tx_manager.tx_count(), 2);
    let account = engine.client_manager.get(ClientId(1)).unwrap();
    assert_eq!(account.available, units(40));
    assert_eq!(account.held, Amount::zero());
}

#[test]
fn dispute_errors_do_not_mutate() {
    let mut engine = PaymentsEngine::default();
    engine.process_csv_record(record(TxType::Deposit, 1, 1, "100.0")).unwrap();
    assert_eq!(
        engine.process_csv_record(record(TxType::Dispute, 1, 9, "")),
        Err(TransactionError::MissingTransaction(TxId(9)))
    );
    assert_eq!(
        engine.process_csv_record(record(TxType::Dispute, 2, 1, "")),
        Err(TransactionError::InvalidClientId)
    );
    assert_eq!(
        engine.process_csv_record(record(TxType::Chargeback, 2, 1, "")),
        Err(TransactionError::InvalidClientId)
    );
    assert_eq!(
        engine.process_csv_record(record(TxType::Resolve, 1, 9, "")),
        Err(TransactionError::MissingTransaction(TxId(9)))
    );
    assert_eq!(engine.client_manager.client_count(), 1);
    let account = engine.client_manager.get(ClientId(1)).unwrap();
    assert_eq!(account.available, units(100));
    assert_eq!(account.held, Amount::zero());
    assert!(engine.client_manager.get(ClientId(2)).is_none());
}

#[test]
fn insufficient_funds_scenario() {
    let mut engine = PaymentsEngine::default();
    engine.process_csv_record(record(TxType::Deposit, 1, 1, "100.0")).unwrap();
    let account = engine.client_manager.get(ClientId(1)).unwrap();
    assert_eq!(account.available, units(100));
    assert_eq!(account.held, Amount::zero());
    assert_eq!(
        engine.process_csv_record(record(TxType::Withdrawal, 1, 2, "200.0")),
        Err(TransactionError::InsufficientFunds)
    );
    let account = engine.client_manager.get(ClientId(1)).unwrap();
    assert_eq!(account.available, units(100));
    assert!(!engine.tx_manager.contains(TxId(2)));
}

#[test]
fn dispute_resolve_lifecycle_scenario() {
    let mut engine = PaymentsEngine::default();
    engine.process_csv_record(record(TxType::Deposit, 1, 1, "100.0")).unwrap();
    engine.process_csv_record(record(TxType::Dispute, 1, 1, "")).unwrap();
    let account = engine.client_manager.get(ClientId(1)).unwrap();
    assert_eq!(account.available, Amount::zero());
    assert_eq!(account.held, units(100));
    engine.process_csv_record(record(TxType::Dispute, 1, 1, "")).unwrap();
    engine.process_csv_record(record(TxType::Resolve, 1, 1, "")).unwrap();
    let account = engine.client_manager.get(ClientId(1)).unwrap();
    assert_eq!(account.available, units(100));
    assert_eq!(account.held, Amount::zero());
    assert_eq!(engine.tx_manager.get(TxId(1)).unwrap().status, TransactionStatus::Resolved);
    assert_eq!(
        engine.process_csv_record(record(TxType::Dispute, 1, 2, "")),
        Err(TransactionError::MissingTransaction(TxId(2)))
    );
    engine.process_csv_record(record(TxType::Dispute, 1, 1, "")).unwrap();
    let account = engine.client_manager.get(ClientId(1)).unwrap();
    assert_eq!(account.held, units(100));
    engine.process_csv_record(record(TxType::Resolve, 1, 1, "")).unwrap();
    engine.process_csv_record(record(TxType::Resolve, 1, 1, "")).unwrap();
    let account = engine.client_manager.get(ClientId(1)).unwrap();
    assert_eq!(account.available, units(100));
    assert_eq!(account.held, Amount::zero());
}

#[test]
fn chargeback_locks_scenario() {
    let mut engine = PaymentsEngine::default();
    engine.process_csv_record(record(TxType::Deposit, 1, 1, "100.0")).unwrap();
    engine.process_csv_record(record(TxType::Dispute, 1, 1, "")).unwrap();
    engine.process_csv_record(record(TxType::Chargeback, 1, 1, "")).unwrap();
    let account = engine.client_manager.get(ClientId(1)).unwrap();
    assert_eq!(account.available, Amount::zero());
    assert_eq!(account.held, Amount::zero());
    assert!(account.is_locked());
    for tx in 2..6u32 {
        assert_eq!(
            engine.process_csv_record(record(TxType::Deposit, 1, tx, "100.0")),
            Err(TransactionError::AccountLocked)
        );
        assert_eq!(
            engine.process_csv_record(record(TxType::Withdrawal, 1, tx + 10, "0")),
            Err(TransactionError::AccountLocked)
        );
    }
    let account = engine.client_manager.get(ClientId(1)).unwrap();
    assert_eq!(account.available, Amount::zero());
    assert_eq!(account.total(), Amount::zero());
}

#[test]
fn total_is_available_plus_held() {
    let mut engine = PaymentsEngine::default();
    engine.process_csv_record(record(TxType::Deposit, 3, 1, "10.5")).unwrap();
    engine.process_csv_record(record(TxType::Deposit, 3, 2, "2.25")).unwrap();
    engine.process_csv_record(record(TxType::Dispute, 3, 1, "")).unwrap();
    let account = engine.client_manager.get(ClientId(3)).unwrap();
    assert_eq!(account.available, Amount::from_units(22_500));
    assert_eq!(account.held, Amount::from_units(105_000));
    assert_eq!(account.total(), Amount::from_units(127_500));
}

#[test]
fn errors_on_bad_amounts() {
    let mut engine = PaymentsEngine::default();
    assert_eq!(
        engine.process_csv_record(record(TxType::Deposit, 1, 1, "")),
        Err(TransactionError::MissingAmount)
    );
    assert_eq!(
        engine.process_csv_record(record(TxType::Deposit, 1, 2, "-5")),
        Err(TransactionError::InvalidAmount)
    );
    let huge = CSVRecord {
        kind: TxType::Deposit,
        client: ClientId(1),
        tx: TxId(3),
        amount: Some(Amount::from_units(i128::MAX)),
    };
    assert_eq!(engine.process_csv_record(huge), Err(TransactionError::InvalidAmount));
    assert_eq!(engine.client_manager.client_count(), 0);
    assert_eq!(engine.tx_manager.tx_count(), 0);
    assert_eq!(
        Transaction::try_from(record(TxType::Dispute, 1, 4, "")),
        Err(TransactionError::NotStorable(TxType::Dispute))
    );
}

#[test]
fn fresh_account_is_default() {
    assert_eq!(ClientAccount::default().total(), Amount::zero());
    assert_eq!(ClientAccountStatus::default(), ClientAccountStatus::Active);
}

#[test]
fn resolve_naming_another_client_moves_the_owners_funds() {
    let mut engine = PaymentsEngine::default();
    engine.process_csv_record(record(TxType::Deposit, 1, 1, "100")).unwrap();
    engine.process_csv_record(record(TxType::Dispute, 1, 1, "")).unwrap();
    assert_eq!(engine.process_csv_record(record(TxType::Resolve, 2, 1, "")), Ok(()));
    let owner = engine.client_manager.get(ClientId(1)).unwrap();
    assert_eq!(owner.available, units(100));
    assert_eq!(owner.held, Amount::zero());
    assert!(engine.client_manager.get(ClientId(2)).is_none());
    assert_eq!(engine.tx_manager.get(TxId(1)).unwrap().status, TransactionStatus::Resolved);
}
