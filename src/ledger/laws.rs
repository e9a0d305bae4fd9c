use vstd::prelude::*;

use crate::ledger::client_manager::{
    account_or_fresh, accounts_wf, ClientAccount, ClientAccountStatus,
};
use crate::ledger::engine::{process_outcome, unchanged};
use crate::model::{CSVRecord, TxType};
use crate::transaction::{Transaction, TransactionError, TransactionStatus};

verus! {

/// The stores after applying `records` in order, starting from `accounts` and `txs`.
pub open spec fn run(
    accounts: Map<u16, ClientAccount>,
    txs: Map<u32, Transaction>,
    records: Seq<CSVRecord>,
) -> (Map<u16, ClientAccount>, Map<u32, Transaction>)
    decreases records.len(),
{
    if records.len() == 0 {
        (accounts, txs)
    } else {
        let o = process_outcome(accounts, txs, records[0]);
        run(o.0, o.1, records.subrange(1, records.len() as int))
    }
}

/// After any record every account still has both balances in range, so
/// `ClientAccount::total` gives exactly its available plus its held funds.
pub proof fn law_balances_stay_in_range(
    accounts: Map<u16, ClientAccount>,
    txs: Map<u32, Transaction>,
    r: CSVRecord,
)
    requires
        accounts_wf(accounts),
    ensures
        accounts_wf(process_outcome(accounts, txs, r).0),
{
    let a = account_or_fresh(accounts, r.client.0);
    assert(a.wf());
}

/// A deposit or withdrawal whose id is already stored fails as a duplicate
/// and changes neither store.
pub proof fn law_duplicate_id_rejected(
    accounts: Map<u16, ClientAccount>,
    txs: Map<u32, Transaction>,
    r: CSVRecord,
)
    requires
        r.kind == TxType::Deposit || r.kind == TxType::Withdrawal,
        txs.contains_key(r.tx.0),
    ensures
        process_outcome(accounts, txs, r) == unchanged(
            accounts,
            txs,
            TransactionError::DuplicateTransactionId(r.tx),
        ),
{
}

/// Disputing an id that is not stored fails with `MissingTransaction`.
pub proof fn law_dispute_of_missing_id(
    accounts: Map<u16, ClientAccount>,
    txs: Map<u32, Transaction>,
    r: CSVRecord,
)
    requires
        r.kind == TxType::Dispute,
        !txs.contains_key(r.tx.0),
    ensures
        process_outcome(accounts, txs, r) == unchanged(
            accounts,
            txs,
            TransactionError::MissingTransaction(r.tx),
        ),
{
}

/// Disputing another client's transaction fails with `InvalidClientId` and
/// changes nothing.
pub proof fn law_dispute_by_other_client(
    accounts: Map<u16, ClientAccount>,
    txs: Map<u32, Transaction>,
    r: CSVRecord,
)
    requires
        r.kind == TxType::Dispute,
        txs.contains_key(r.tx.0),
        txs[r.tx.0].client != r.client,
    ensures
        process_outcome(accounts, txs, r) == unchanged(
            accounts,
            txs,
            TransactionError::InvalidClientId,
        ),
{
}

/// A withdrawal of more than the available funds of an unlocked account
/// fails with `InsufficientFunds` and changes nothing.
pub proof fn law_withdrawal_beyond_available(
    accounts: Map<u16, ClientAccount>,
    txs: Map<u32, Transaction>,
    r: CSVRecord,
)
    requires
        r.kind == TxType::Withdrawal,
        !txs.contains_key(r.tx.0),
        account_or_fresh(accounts, r.client.0).status == ClientAccountStatus::Active,
        r.amount is Some,
        account_or_fresh(accounts, r.client.0).available.units < r.amount->Some_0.units,
    ensures
        process_outcome(accounts, txs, r) == unchanged(
            accounts,
            txs,
            TransactionError::InsufficientFunds,
        ),
{
}

/// A locked account stays locked after any one record.
pub proof fn lemma_lock_kept(
    accounts: Map<u16, ClientAccount>,
    txs: Map<u32, Transaction>,
    r: CSVRecord,
    client: u16,
)
    requires
        account_or_fresh(accounts, client).status == ClientAccountStatus::Locked,
    ensures
        account_or_fresh(process_outcome(accounts, txs, r).0, client).status
            == ClientAccountStatus::Locked,
{
}

/// Once an account is locked it stays locked whatever records follow.
pub proof fn law_lock_is_permanent(
    accounts: Map<u16, ClientAccount>,
    txs: Map<u32, Transaction>,
    records: Seq<CSVRecord>,
    client: u16,
)
    requires
        account_or_fresh(accounts, client).status == ClientAccountStatus::Locked,
    ensures
        account_or_fresh(run(accounts, txs, records).0, client).status
            == ClientAccountStatus::Locked,
    decreases records.len(),
{
    if records.len() > 0 {
        let o = process_outcome(accounts, txs, records[0]);
        lemma_lock_kept(accounts, txs, records[0], client);
        law_lock_is_permanent(o.0, o.1, records.subrange(1, records.len() as int), client);
    }
}

/// Once an account is locked, a later deposit or withdrawal on it with an
/// unused id fails with `AccountLocked` and changes nothing, however many
/// records came between.
pub proof fn law_locked_account_refuses_funds(
    accounts: Map<u16, ClientAccount>,
    txs: Map<u32, Transaction>,
    records: Seq<CSVRecord>,
    r: CSVRecord,
)
    requires
        account_or_fresh(accounts, r.client.0).status == ClientAccountStatus::Locked,
        r.kind == TxType::Deposit || r.kind == TxType::Withdrawal,
        !run(accounts, txs, records).1.contains_key(r.tx.0),
    ensures
        ({
            let s = run(accounts, txs, records);
            process_outcome(s.0, s.1, r) == unchanged(s.0, s.1, TransactionError::AccountLocked)
        }),
{
    law_lock_is_permanent(accounts, txs, records, r.client.0);
}


/// What transaction `t` contributes to the held funds of `client`: its amount
/// while it is under dispute and belongs to that client.
pub open spec fn open_dispute_amount(t: Transaction, client: u16) -> int {
    if t.client.0 == client && t.status == TransactionStatus::Disputed {
        t.amount.units as int
    } else {
        0
    }
}

/// The sum of `open_dispute_amount` over the transactions stored under `keys`.
pub open spec fn held_over(txs: Map<u32, Transaction>, client: u16, keys: Set<u32>) -> int
    decreases keys.len(),
    when keys.finite()
{
    if keys.len() == 0 {
        0
    } else {
        let k = keys.choose();
        open_dispute_amount(txs[k], client) + held_over(txs, client, keys.remove(k))
    }
}

/// Every client's held funds are exactly the amounts of its open disputes.
pub open spec fn held_matches_disputes(
    accounts: Map<u16, ClientAccount>,
    txs: Map<u32, Transaction>,
) -> bool {
    forall|c: u16|
        #![trigger account_or_fresh(accounts, c)]
        account_or_fresh(accounts, c).held.units == held_over(txs, c, txs.dom())
}

proof fn lemma_held_over_remove(
    txs: Map<u32, Transaction>,
    client: u16,
    keys: Set<u32>,
    k: u32,
)
    requires
        keys.finite(),
        keys.contains(k),
    ensures
        held_over(txs, client, keys) == open_dispute_amount(txs[k], client) + held_over(
            txs,
            client,
            keys.remove(k),
        ),
    decreases keys.len(),
{
    let x = keys.choose();
    if x != k {
        lemma_held_over_remove(txs, client, keys.remove(x), k);
        lemma_held_over_remove(txs, client, keys.remove(k), x);
        assert(keys.remove(x).remove(k) =~= keys.remove(k).remove(x));
    }
}

proof fn lemma_held_over_frame(
    a: Map<u32, Transaction>,
    b: Map<u32, Transaction>,
    client: u16,
    keys: Set<u32>,
)
    requires
        keys.finite(),
        forall|k: u32| keys.contains(k) ==> a[k] == b[k],
    ensures
        held_over(a, client, keys) == held_over(b, client, keys),
    decreases keys.len(),
{
    if keys.len() > 0 {
        let x = keys.choose();
        lemma_held_over_frame(a, b, client, keys.remove(x));
    }
}

proof fn lemma_held_over_insert(txs: Map<u32, Transaction>, k: u32, t: Transaction, client: u16)
    requires
        txs.dom().finite(),
    ensures
        held_over(txs.insert(k, t), client, txs.insert(k, t).dom()) == held_over(
            txs,
            client,
            txs.dom(),
        ) - (if txs.contains_key(k) {
            open_dispute_amount(txs[k], client)
        } else {
            0
        }) + open_dispute_amount(t, client),
{
    let n = txs.insert(k, t);
    assert(n.dom().contains(k));
    lemma_held_over_remove(n, client, n.dom(), k);
    lemma_held_over_frame(n, txs, client, n.dom().remove(k));
    if txs.contains_key(k) {
        lemma_held_over_remove(txs, client, txs.dom(), k);
        assert(n.dom().remove(k) =~= txs.dom().remove(k));
    } else {
        assert(n.dom().remove(k) =~= txs.dom());
    }
}

/// With no transactions stored, no client has held funds.
pub proof fn law_held_starts_at_zero()
    ensures
        held_matches_disputes(
            Map::<u16, ClientAccount>::empty(),
            Map::<u32, Transaction>::empty(),
        ),
{
    assert forall|c: u16| #[trigger]
        account_or_fresh(Map::<u16, ClientAccount>::empty(), c).held.units == held_over(
            Map::<u32, Transaction>::empty(),
            c,
            Map::<u32, Transaction>::empty().dom(),
        ) by {
        assert(Map::<u32, Transaction>::empty().dom() =~= Set::<u32>::empty());
    }
}

/// Held funds equal the open disputes after every record: they rise only by
/// a dispute and fall only by a resolve or chargeback of the same
/// transaction, on the account it belongs to.
pub proof fn law_held_is_open_disputes(
    accounts: Map<u16, ClientAccount>,
    txs: Map<u32, Transaction>,
    r: CSVRecord,
)
    requires
        txs.dom().finite(),
        held_matches_disputes(accounts, txs),
    ensures
        process_outcome(accounts, txs, r).1.dom().finite(),
        held_matches_disputes(process_outcome(accounts, txs, r).0, process_outcome(accounts, txs, r).1),
{
    let o = process_outcome(accounts, txs, r);
    if o.1 != txs {
        let k = r.tx.0;
        let t = o.1[k];
        assert(o.1 == txs.insert(k, t));
        assert(o.1.dom() =~= txs.dom().insert(k));
        assert forall|c: u16| #[trigger]
            account_or_fresh(o.0, c).held.units == held_over(o.1, c, o.1.dom()) by {
            lemma_held_over_insert(txs, k, t, c);
            assert(account_or_fresh(accounts, c).held.units == held_over(txs, c, txs.dom()));
        }
    } else {
        assert forall|c: u16| #[trigger]
            account_or_fresh(o.0, c).held.units == held_over(o.1, c, o.1.dom()) by {
            assert(account_or_fresh(accounts, c).held.units == held_over(txs, c, txs.dom()));
        }
    }
}

} // verus!
