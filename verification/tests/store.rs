use credit_ledger::domain::TxKind;
use credit_ledger::error::Error;
use credit_ledger::store::Store;

fn store_with_account(id: i32, credit_limit: i32, initial_balance: i32) -> Store {
    let mut store = Store::new();
    store.provision(id, "ana", credit_limit, initial_balance).unwrap();
    store
}

#[test]
fn provision_and_snapshot_round_trip() {
    let mut store = Store::new();
    assert!(!store.exists_account(1));
    store.provision(1, "ana", 1000, 0).unwrap();
    assert!(store.exists_account(1));
    let c = store.snapshot(1).unwrap();
    assert_eq!(c.id, 1);
    assert_eq!(c.name, "ana");
    assert_eq!(c.credit_limit, 1000);
    assert_eq!(c.balance, 0);
}

#[test]
fn provision_duplicate_id_is_rejected() {
    let mut store = store_with_account(1, 1000, 0);
    assert_eq!(store.provision(1, "bia", 500, 0), Err(Error::InvalidInput));
    // The original row is untouched.
    let c = store.snapshot(1).unwrap();
    assert_eq!(c.name, "ana");
    assert_eq!(c.credit_limit, 1000);
}

#[test]
fn provision_rejects_bad_rows() {
    let mut store = Store::new();
    assert_eq!(store.provision(0, "x", 1000, 0), Err(Error::InvalidInput));
    assert_eq!(store.provision(1, "x", -1, 0), Err(Error::InvalidInput));
    assert_eq!(store.provision(1, "x", 100, -101), Err(Error::InvalidInput));
    assert_eq!(store.provision(1, "x", 100, -100), Ok(()));
}

#[test]
fn apply_on_unknown_account_is_not_found_and_mutates_nothing() {
    let mut store = store_with_account(1, 1000, 0);
    assert_eq!(store.apply(2, "credit", 10, "x", 0).unwrap_err(), Error::NotFound);
    assert_eq!(store.transaction_count(1), Some(0));
    assert_eq!(store.snapshot(1).unwrap().balance, 0);
    assert_eq!(store.transaction_count(2), None);
}

#[test]
fn statement_on_unknown_account_is_not_found() {
    let store = store_with_account(1, 1000, 0);
    assert_eq!(store.statement(2, 0).unwrap_err(), Error::NotFound);
}

#[test]
fn applied_transaction_is_recorded_with_its_fields() {
    let mut store = store_with_account(1, 1000, 0);
    let receipt = store.apply(1, "debit", 100, "loja", 42).unwrap();
    assert_eq!(receipt.credit_limit, 1000);
    assert_eq!(receipt.balance, -100);
    assert_eq!(store.transaction_count(1), Some(1));
    let st = store.statement(1, 99).unwrap();
    assert_eq!(st.balance, -100);
    assert_eq!(st.credit_limit, 1000);
    assert_eq!(st.queried_at, 99);
    assert_eq!(st.last_transactions.len(), 1);
    let tx = &st.last_transactions[0];
    assert_eq!(tx.amount, 100);
    assert_eq!(tx.kind, TxKind::Debit);
    assert_eq!(tx.description, "loja");
    assert_eq!(tx.created_at, 42);
}

#[test]
fn rejected_debit_changes_no_balance_and_records_no_row() {
    let mut store = store_with_account(1, 50, 0);
    store.apply(1, "debit", 30, "ok", 1).unwrap();
    assert_eq!(store.apply(1, "debit", 21, "too much", 2), Err(Error::LimitExceeded));
    assert_eq!(store.snapshot(1).unwrap().balance, -30);
    assert_eq!(store.transaction_count(1), Some(1));
}

#[test]
fn invalid_input_through_apply_changes_nothing() {
    let mut store = store_with_account(1, 1000, 0);
    assert_eq!(store.apply(1, "transfer", 10, "x", 0), Err(Error::InvalidInput));
    assert_eq!(store.apply(1, "credit", 0, "x", 0), Err(Error::InvalidInput));
    assert_eq!(store.apply(1, "credit", 10, "", 0), Err(Error::InvalidInput));
    assert_eq!(store.apply(1, "credit", 10, "abcdefghijk", 0), Err(Error::InvalidInput));
    assert_eq!(store.apply(1, "credit", 10, "abcdefghij", 0).unwrap().balance, 10);
    assert_eq!(store.transaction_count(1), Some(1));
}

#[test]
fn worked_example_debit_then_rejection_then_credit() {
    let mut store = store_with_account(1, 1000, 0);

    let first = store.apply(1, "debit", 1000, "loja", 1).unwrap();
    assert_eq!(first.balance, -1000);

    assert_eq!(store.apply(1, "debit", 1, "x", 2), Err(Error::LimitExceeded));
    assert_eq!(store.snapshot(1).unwrap().balance, -1000);

    let third = store.apply(1, "credit", 1500, "salario", 3).unwrap();
    assert_eq!(third.balance, 500);
}

#[test]
fn statement_with_fewer_than_ten_returns_all_newest_first() {
    let mut store = store_with_account(1, 1000, 0);
    store.apply(1, "credit", 1, "first", 10).unwrap();
    store.apply(1, "credit", 2, "second", 20).unwrap();
    store.apply(1, "debit", 3, "third", 30).unwrap();
    let st = store.statement(1, 99).unwrap();
    assert_eq!(st.last_transactions.len(), 3);
    assert_eq!(st.last_transactions[0].description, "third");
    assert_eq!(st.last_transactions[1].description, "second");
    assert_eq!(st.last_transactions[2].description, "first");
    assert_eq!(st.last_transactions[0].kind, TxKind::Debit);
    assert_eq!(st.last_transactions[0].amount, 3);
}

#[test]
fn statement_of_fresh_account_is_empty() {
    let store = store_with_account(1, 1000, 250);
    let st = store.statement(1, 5).unwrap();
    assert_eq!(st.balance, 250);
    assert_eq!(st.last_transactions.len(), 0);
}

#[test]
fn statement_with_exactly_ten_returns_all_ten() {
    let mut store = store_with_account(1, 1000, 0);
    for i in 1..=10 {
        store.apply(1, "credit", i, "x", i as i64).unwrap();
    }
    let st = store.statement(1, 99).unwrap();
    assert_eq!(st.last_transactions.len(), 10);
    assert_eq!(st.last_transactions[0].amount, 10);
    assert_eq!(st.last_transactions[9].amount, 1);
}

#[test]
fn unknown_account_wins_over_invalid_input() {
    let mut store = store_with_account(1, 1000, 0);
    // Bad kind, bad amount and bad description, but the id is checked first.
    assert_eq!(store.apply(9, "transfer", 0, "", 0).unwrap_err(), Error::NotFound);
}

#[test]
fn statement_with_more_than_ten_returns_ten_most_recent() {
    let mut store = store_with_account(1, 1000, 0);
    for i in 1..=12 {
        store.apply(1, "credit", i, "x", i as i64).unwrap();
    }
    let st = store.statement(1, 99).unwrap();
    assert_eq!(st.last_transactions.len(), 10);
    // Newest first: amounts 12 down to 3.
    for (k, tx) in st.last_transactions.iter().enumerate() {
        assert_eq!(tx.amount, 12 - k as i32);
    }
}

#[test]
fn balance_is_initial_plus_credits_minus_debits() {
    let initial = 70;
    let mut store = store_with_account(1, 1000, initial);
    let credits = [15, 40, 7];
    let debits = [30, 101];
    for (i, a) in credits.iter().enumerate() {
        store.apply(1, "credit", *a, "in", i as i64).unwrap();
    }
    for (i, a) in debits.iter().enumerate() {
        store.apply(1, "debit", *a, "out", 10 + i as i64).unwrap();
    }
    let expected = initial + credits.iter().sum::<i32>() - debits.iter().sum::<i32>();
    assert_eq!(store.snapshot(1).unwrap().balance, expected);
    assert!(store.snapshot(1).unwrap().balance >= -1000);
}

#[test]
fn contended_unit_debits_succeed_exactly_balance_plus_limit_times() {
    let balance = 3;
    let limit = 2;
    let n = 10;
    let mut store = store_with_account(1, limit, balance);
    let mut successes = 0;
    let mut limit_failures = 0;
    for i in 0..n {
        match store.apply(1, "debit", 1, "u", i as i64) {
            Ok(_) => successes += 1,
            Err(Error::LimitExceeded) => limit_failures += 1,
            Err(other) => panic!("unexpected error {:?}", other),
        }
    }
    assert_eq!(successes, balance + limit);
    assert_eq!(limit_failures, n - (balance + limit));
    assert_eq!(store.snapshot(1).unwrap().balance, -limit);
}

#[test]
fn timestamps_never_decrease_per_account() {
    let mut store = store_with_account(1, 1000, 0);
    store.apply(1, "credit", 1, "a", 50).unwrap();
    store.apply(1, "credit", 1, "b", 20).unwrap();
    store.apply(1, "credit", 1, "c", 60).unwrap();
    let st = store.statement(1, 99).unwrap();
    // Newest first; the middle one was pushed up to its predecessor's time.
    assert_eq!(st.last_transactions[0].created_at, 60);
    assert_eq!(st.last_transactions[1].created_at, 50);
    assert_eq!(st.last_transactions[2].created_at, 50);
    assert_eq!(st.last_transactions[1].description, "b");
}

#[test]
fn accounts_are_isolated_from_each_other() {
    let mut store = Store::new();
    store.provision(1, "ana", 1000, 0).unwrap();
    store.provision(2, "bia", 500, 100).unwrap();
    store.apply(1, "debit", 10, "x", 1).unwrap();
    assert_eq!(store.snapshot(2).unwrap().balance, 100);
    assert_eq!(store.transaction_count(2), Some(0));
    assert_eq!(store.snapshot(1).unwrap().balance, -10);
}
