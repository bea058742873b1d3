use syncyam::operation::{MemoryMeasurable, Operation};
use syncyam::operation_id::OperationId;
use syncyam::transaction::{Transaction, TRANSACTION_CONSTANT_SIZE};

#[test]
fn can_debug_and_display_transaction() {
    let mut op_id = OperationId::new();
    let mut tx = Transaction::new(&mut op_id);
    println!("{}", tx.to_string());
    tx.set_tag(Some("tag1".to_string()));
    tx.set_event(true);
    println!("{}", tx.to_string());
    let mut op1 = Operation::new_counter_increase(1);
    op1.set_lamport(1);
    let mut op2 = Operation::new_counter_increase(2);
    op2.set_lamport(2);
    tx.push_operation(op1);
    println!("{}", tx.debug_string());
    tx.set_event(false);
    tx.push_operation(op2);
    println!("{}", tx.to_string());

    let op_id_tx = tx.get_op_id();
    println!("{}", op_id_tx.to_string());
    assert_eq!(op_id, op_id_tx);
}

#[test]
fn can_measure_transaction_size() {
    let mut op_id = OperationId::new();
    let mut tx = Transaction::new(&mut op_id);
    assert_eq!(tx.size(), TRANSACTION_CONSTANT_SIZE);
    tx.set_tag(Some("1234567890".to_string()));
    assert_eq!(tx.size(), TRANSACTION_CONSTANT_SIZE + 10);
    let op = Operation::new_counter_increase(1);
    tx.push_operation(op.clone());
    assert_eq!(tx.size(), TRANSACTION_CONSTANT_SIZE + 10 + op.size());
    tx.push_operation(op.clone());
    assert_eq!(tx.size(), TRANSACTION_CONSTANT_SIZE + 10 + op.size() * 2);
}

#[test]
fn renders_transaction_display() {
    let mut op_id = OperationId::new();
    let mut tx = Transaction::new(&mut op_id);
    assert_eq!(tx.to_string(), "TX( 0000000000000000:1:0:[])");
    tx.set_tag(Some("t".to_string()));
    tx.set_event(true);
    assert_eq!(tx.to_string(), "TX(tag:t event 0000000000000000:1:0:[])");
}
