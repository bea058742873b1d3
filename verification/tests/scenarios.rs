use std::sync::{Arc, Mutex};

use syncyam::clients::{can_reuse_datatype, ClientInfo};
use syncyam::common::ReturnType;
use syncyam::crdt::Crdt;
use syncyam::operation::Operation;
use syncyam::transactional::{BeginTransactionResult, TransactionContext, TransactionalDatatype};
use syncyam::{DataType, DatatypeError, DatatypeState};

fn new_counter(key: &str) -> TransactionalDatatype {
    TransactionalDatatype::new(
        key,
        DataType::Counter,
        DatatypeState::default(),
        ClientInfo::default(),
    )
}

fn value_of(dt: &TransactionalDatatype) -> i64 {
    let Crdt::Counter(c) = &dt.mutable.crdt;
    c.value()
}

#[test]
fn increase_then_decrease_yields_sum() {
    let mut dt = new_counter("incr_decr");
    let r = dt.execute_local_operation_as_tx(
        &TransactionContext::default(),
        Operation::new_counter_increase(5),
    );
    assert_eq!(r.unwrap(), ReturnType::Counter(5));
    let r = dt.execute_local_operation_as_tx(
        &TransactionContext::default(),
        Operation::new_counter_increase(-2),
    );
    assert_eq!(r.unwrap(), ReturnType::Counter(3));
    assert_eq!(value_of(&dt), 3);
}

#[test]
fn failed_transaction_rolls_back_exactly() {
    let mut dt = new_counter("batch_then_fail");

    // a tagged transaction that commits both increments together
    let batch = TransactionContext::new("batch".to_string());
    let decision = dt.begin_transaction(&batch);
    assert_eq!(decision, BeginTransactionResult::BeginTx);
    dt.execute_local_operation(Operation::new_counter_increase(10))
        .unwrap();
    dt.execute_local_operation(Operation::new_counter_increase(5))
        .unwrap();
    dt.end_transaction(true);
    assert_eq!(value_of(&dt), 15);

    // a failing transaction leaves the value exactly as it was
    let failing = TransactionContext::new("fail".to_string());
    let decision = dt.begin_transaction(&failing);
    assert_eq!(decision, BeginTransactionResult::BeginTx);
    dt.execute_local_operation(Operation::new_counter_increase(100))
        .unwrap();
    assert_eq!(value_of(&dt), 115);
    dt.end_transaction(false);
    assert_eq!(value_of(&dt), 15);

    // later transactions still work against the restored state
    let again = TransactionContext::new("again".to_string());
    dt.begin_transaction(&again);
    dt.execute_local_operation(Operation::new_counter_increase(1))
        .unwrap();
    dt.end_transaction(true);
    assert_eq!(value_of(&dt), 16);

    // even another rollback afterwards lands on the committed value
    let fail_again = TransactionContext::new("fail-again".to_string());
    dt.begin_transaction(&fail_again);
    dt.execute_local_operation(Operation::new_counter_increase(7))
        .unwrap();
    dt.end_transaction(false);
    assert_eq!(value_of(&dt), 16);
}

#[test]
fn five_transactions_sum_their_indexes() {
    let mut dt = new_counter("five_txs");
    for i in 0..5_i64 {
        let ctx = TransactionContext::new(format!("tag:{i}"));
        let decision = dt.begin_transaction(&ctx);
        assert_eq!(decision, BeginTransactionResult::BeginTx);
        dt.execute_local_operation(Operation::new_counter_increase(i))
            .unwrap();
        dt.end_transaction(true);
    }
    assert_eq!(value_of(&dt), 1 + 2 + 3 + 4);
}

#[test]
fn lamports_increase_and_failures_reclaim_them() {
    let mut dt = new_counter("lamports");
    dt.execute_local_operation_as_tx(
        &TransactionContext::default(),
        Operation::new_counter_increase(1),
    )
    .unwrap();
    assert_eq!(dt.mutable.op_id.lamport, 1);

    // a failing operation's clock value is taken back
    let r = dt.execute_local_operation_as_tx(
        &TransactionContext::default(),
        Operation::new_delay_for_test(1, false),
    );
    assert!(r.is_err());
    assert_eq!(dt.mutable.op_id.lamport, 1);

    dt.execute_local_operation_as_tx(
        &TransactionContext::default(),
        Operation::new_counter_increase(2),
    )
    .unwrap();
    assert_eq!(dt.mutable.op_id.lamport, 2);

    // the recorded operations carry strictly increasing clocks
    let txs = &dt.mutable.rollback.transactions;
    assert_eq!(txs.len(), 2);
    assert_eq!(txs[0].operations[0].lamport, 1);
    assert_eq!(txs[1].operations[0].lamport, 2);
}

#[test]
fn nested_owner_keeps_its_transaction_open() {
    let mut dt = new_counter("nested");
    let ctx = TransactionContext::new("outer".to_string());
    let decision = dt.begin_transaction(&ctx);
    assert_eq!(decision, BeginTransactionResult::BeginTx);
    // the owner's nested calls join the same transaction
    let r = dt.execute_local_operation_as_tx(&ctx, Operation::new_counter_increase(4));
    assert!(r.is_ok());
    let r = dt.execute_local_operation_as_tx(&ctx, Operation::new_counter_increase(6));
    assert!(r.is_ok());
    assert!(dt.mutable.transaction.is_some());
    dt.end_transaction(true);
    assert_eq!(value_of(&dt), 10);
    let txs = &dt.mutable.rollback.transactions;
    assert_eq!(txs.len(), 1);
    assert_eq!(txs[0].operations.len(), 2);
}

#[test]
fn another_owner_is_told_to_wait() {
    let mut dt = new_counter("contended");
    let owner = TransactionContext::new("owner".to_string());
    assert_eq!(dt.begin_transaction(&owner), BeginTransactionResult::BeginTx);
    let intruder = TransactionContext::new("intruder".to_string());
    assert_eq!(dt.begin_transaction(&intruder), BeginTransactionResult::OtherCtx);
    assert_eq!(dt.begin_transaction(&owner), BeginTransactionResult::SameCtx);
    dt.end_transaction(true);
    // once the owner finished, the other context may begin
    assert_eq!(dt.begin_transaction(&intruder), BeginTransactionResult::BeginTx);
    dt.end_transaction(true);
}

#[test]
fn failed_operation_reports_execution_error() {
    let mut dt = new_counter("error_variant");
    let r = dt.execute_local_operation_as_tx(
        &TransactionContext::default(),
        Operation::new_delay_for_test(1, false),
    );
    let e = r.err().unwrap();
    assert_eq!(e, DatatypeError::FailedToExecuteOperation(String::new()));
}

#[test]
fn registration_reuse_requires_matching_kind_and_state() {
    assert!(can_reuse_datatype(
        DataType::Counter,
        DatatypeState::DueToCreate,
        DataType::Counter,
        DatatypeState::DueToCreate,
    ));
    assert!(!can_reuse_datatype(
        DataType::Counter,
        DatatypeState::DueToCreate,
        DataType::List,
        DatatypeState::DueToCreate,
    ));
    assert!(!can_reuse_datatype(
        DataType::Counter,
        DatatypeState::DueToCreate,
        DataType::Counter,
        DatatypeState::DueToSubscribeOrCreate,
    ));
}

#[test]
fn concurrent_transactions_sum_their_constants() {
    let rt = tokio::runtime::Builder::new_multi_thread()
        .worker_threads(5)
        .build()
        .unwrap();
    let dt = Arc::new(Mutex::new(new_counter("concurrent")));
    rt.block_on(async {
        let mut handles = vec![];
        for i in 0..5_i64 {
            let dt = dt.clone();
            handles.push(tokio::spawn(async move {
                let ctx = TransactionContext::new(format!("tag:{i}"));
                loop {
                    let decision = dt.lock().unwrap().begin_transaction(&ctx);
                    match decision {
                        BeginTransactionResult::BeginTx => break,
                        BeginTransactionResult::SameCtx => break,
                        BeginTransactionResult::OtherCtx => tokio::task::yield_now().await,
                    }
                }
                let mut guard = dt.lock().unwrap();
                guard
                    .execute_local_operation(Operation::new_counter_increase(i))
                    .unwrap();
                guard.end_transaction(true);
            }));
        }
        for h in handles {
            h.await.unwrap();
        }
    });
    let guard = dt.lock().unwrap();
    assert_eq!(value_of(&guard), 1 + 2 + 3 + 4);
}
