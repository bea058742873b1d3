use std::mem::size_of;

use syncyam::body::{CounterIncreaseBody, Delay4TestBody, OperationBody};
use syncyam::operation::{MemoryMeasurable, Operation};

#[test]
fn can_new_and_print_operations() {
    let op = Operation::new_counter_increase(1);
    println!("{} vs. {}", op.to_string(), op.debug_string());
    let s = op.to_string();
    assert_eq!(s, op.debug_string());
}

#[test]
fn can_measure_operation_size() {
    let constant_size = size_of::<u64>() + size_of::<u64>();
    let op = Operation::new_counter_increase(1);
    assert_eq!(op.size(), constant_size + op.body.size());
    let op = Operation::new_delay_for_test(1, true);
    assert_eq!(op.size(), constant_size + op.body.size());
}

#[test]
fn can_display_and_debug() {
    let body = OperationBody::CounterIncrease(CounterIncreaseBody::new(123));
    println!("{} vs. {}", body.to_string(), body.debug_string());
    let s = body.to_string();
    assert!(s.starts_with("CounterIncrease(") && s.ends_with(')'));
}

#[test]
fn can_measure_body_size() {
    let body = OperationBody::CounterIncrease(CounterIncreaseBody::new(123));
    assert_eq!(body.size(), size_of::<i64>());
    let body = OperationBody::Delay4Test(Delay4TestBody::new(123, true));
    assert_eq!(body.size(), size_of::<u64>() + size_of::<bool>());
}

#[test]
fn renders_negative_deltas() {
    let body = OperationBody::CounterIncrease(CounterIncreaseBody::new(-45));
    assert_eq!(body.to_string(), "CounterIncrease(delta=-45)");
    let body = OperationBody::CounterIncrease(CounterIncreaseBody::new(0));
    assert_eq!(body.to_string(), "CounterIncrease(delta=0)");
}

#[test]
fn stamps_operations_with_wall_clock() {
    let op = Operation::new_counter_increase(1);
    assert!(op.at > 0);
    assert_eq!(op.lamport, 0);
}
