use std::cmp::Ordering;

use syncyam::operation_id::OperationId;
use syncyam::uid::Cuid;

#[test]
fn can_new_and_display_operation_id() {
    let op_id = OperationId::new_with_cuid(&Cuid::new_nil());
    println!("{}", op_id.debug_string());
    assert_eq!(op_id.to_string(), "0:0000000000000000:0");
}

#[test]
fn can_next_rollback_compare_operation_ids() {
    let mut op_id1 = OperationId::new();
    let op_id2 = OperationId::new();
    assert_eq!(op_id1, op_id2);
    op_id1.next_lamport();
    assert!(op_id1 > op_id2);
    assert!(op_id2 < op_id1);
    op_id1.prev_lamport();
    assert_eq!(op_id1, op_id2);
    assert_eq!(op_id1, op_id1);
}

#[test]
fn can_test_operation_id_methods() {
    let mut op_id1 = OperationId::new();
    let mut op_id2 = OperationId::new();
    op_id1.prev_cseq();

    assert_eq!(op_id1, op_id2);
    op_id1.prev_lamport();
    assert_eq!(op_id1, op_id2);

    op_id2.next_cseq();
    op_id1.sync(&op_id2);
    assert_eq!(op_id1, op_id2);
    op_id1.prev_cseq();

    assert_eq!(op_id1.partial_cmp(&op_id2).unwrap(), Ordering::Equal);
}
