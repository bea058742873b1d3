use std::sync::Arc;

use syncyam::clients::ClientInfo;
use syncyam::operation::Operation;
use syncyam::transactional::{TransactionContext, TransactionalDatatype};
use syncyam::{DataType, Datatype, DatatypeState};

#[test]
fn can_compare_transaction_contexts() {
    let ctx1 = TransactionContext::default();
    let ctx2 = TransactionContext::default();
    assert_eq!(ctx1, ctx1);
    assert_ne!(ctx1, ctx2);

    let ctx3 = Arc::new(TransactionContext::default());
    let ctx4 = ctx3.clone();
    assert_eq!(ctx3, ctx4);
    assert_ne!(ctx1, *ctx3);
}

#[test]
fn can_fail_operation_execution() {
    let mut tx_dt = TransactionalDatatype::new(
        "can_fail_operation_execution",
        DataType::Counter,
        DatatypeState::default(),
        ClientInfo::default(),
    );
    {
        let mutable = &tx_dt.mutable;
        assert_eq!(0, mutable.op_id.cseq);
        assert!(mutable.transaction.is_none());
        assert_eq!(0, mutable.rollback.transactions.len());
    }

    let op1 = Operation::new_delay_for_test(10, true);
    let result1 = tx_dt.execute_local_operation_as_tx(&TransactionContext::default(), op1);
    assert!(result1.is_ok());
    {
        let mutable = &tx_dt.mutable;
        assert_eq!(1, mutable.op_id.cseq);
        assert!(mutable.transaction.is_none());
        assert_eq!(1, mutable.rollback.transactions.len());
    }

    let op2 = Operation::new_delay_for_test(10, false);
    let result2 = tx_dt.execute_local_operation_as_tx(&TransactionContext::default(), op2);
    assert!(result2.is_err());
    {
        let mutable = &tx_dt.mutable;
        assert_eq!(1, mutable.op_id.cseq);
        assert_eq!(1, mutable.rollback.transactions.len());
    }
}

#[test]
fn can_call_datatype_trait_functions() {
    let key = "tests_datatype_trait";
    let data = TransactionalDatatype::new(
        key,
        DataType::Counter,
        DatatypeState::default(),
        ClientInfo::default(),
    );
    assert_eq!(data.get_key(), key);
    assert_eq!(data.get_type(), DataType::Counter);
    assert_eq!(data.get_state(), DatatypeState::DueToCreate);
}
