//! Dispatch over the closed set of CRDT state machines, with the fixed
//! binary snapshot format of each kind.
use vstd::prelude::*;

use crate::body::OperationBody;
use crate::common::ReturnType;
use crate::counter_crdt::{counter_bytes, counter_from_bytes, CounterCrdt};
use crate::errors::DatatypeError;
use crate::operation::Operation;
use crate::types::DataType;

verus! {

/// The conflict-free state of one datatype instance; one variant per kind.
#[derive(Debug)]
pub enum Crdt {
    Counter(CounterCrdt),
}

/// The counter value held by a CRDT.
pub open spec fn crdt_value(c: &Crdt) -> int {
    match c {
        Crdt::Counter(cc) => cc.value as int,
    }
}

/// Whether an operation can be applied to this CRDT without leaving the
/// machine range: a delay body always can; an increment must keep the
/// counter within `i64`.
pub open spec fn op_applicable(c: &Crdt, op: &Operation) -> bool {
    match op.body {
        OperationBody::Delay4Test(_) => true,
        OperationBody::CounterIncrease(b) => i64::MIN <= crdt_value(c) + b.delta <= i64::MAX,
    }
}

impl Crdt {
    /// A zero-valued instance of the given kind.
    pub fn new(kind: DataType) -> (r: Self)
        requires
            kind == DataType::Counter,
        ensures
            r matches Crdt::Counter(c) && c.value == 0,
    {
        match kind {
            DataType::Counter => Crdt::Counter(CounterCrdt::default()),
            _ => vstd::pervasive::unreached(),
        }
    }

    /// Applies one local operation. A delay body succeeds or fails as it
    /// was configured, leaving the state alone; an increment adds its delta
    /// and returns the new value.
    pub fn execute_local_operation(&mut self, op: &Operation) -> (r: Result<
        ReturnType,
        DatatypeError,
    >)
        requires
            op_applicable(old(self), op),
        ensures
            op.body matches OperationBody::Delay4Test(d) ==> {
                &&& crdt_value(final(self)) == crdt_value(old(self))
                &&& (d.success ==> r == Result::<ReturnType, DatatypeError>::Ok(
                    ReturnType::Nothing,
                ))
                &&& (!d.success ==> (r matches Result::Err(e) && (e matches
                    DatatypeError::FailedToExecuteOperation(m) && m@ == Seq::<char>::empty())))
            },
            op.body matches OperationBody::CounterIncrease(b) ==> {
                &&& crdt_value(final(self)) == crdt_value(old(self)) + b.delta
                &&& r == Result::<ReturnType, DatatypeError>::Ok(
                    ReturnType::Counter((crdt_value(old(self)) + b.delta) as i64),
                )
            },
    {
        if let OperationBody::Delay4Test(body) = &op.body {
            return match body.run() {
                Ok(_) => Ok(ReturnType::Nothing),
                Err(_) => Err(DatatypeError::FailedToExecuteOperation(body.to_string())),
            };
        }
        match self {
            Crdt::Counter(c) => c.execute_local_operation(op),
        }
    }

    /// The fixed binary snapshot of the current state: 8 bytes,
    /// little-endian, for a counter.
    pub fn serialize(&self) -> (r: Vec<u8>)
        ensures
            self matches Crdt::Counter(c) ==> r@ == counter_bytes(c.value),
            r@.len() == 8,
    {
        match self {
            Crdt::Counter(c) => {
                let bytes = c.to_bytes();
                let mut v: Vec<u8> = Vec::new();
                let mut i: usize = 0;
                while i < 8
                    invariant
                        i <= 8,
                        v@ =~= bytes@.take(i as int),
                    decreases 8 - i,
                {
                    v.push(bytes[i]);
                    i += 1;
                }
                proof {
                    assert(v@ =~= bytes@);
                    crate::counter_crdt::lemma_counter_bytes_round_trip(c.value);
                }
                v
            },
        }
    }

    /// Restores the state from a snapshot. A snapshot of the wrong length
    /// must not fail hard: the instance resets to the kind's zero value.
    pub fn deserialize(&mut self, serialized: &[u8])
        ensures
            serialized@.len() == 8 ==> crdt_value(final(self)) == counter_from_bytes(serialized@),
            serialized@.len() != 8 ==> crdt_value(final(self)) == 0,
    {
        match self {
            Crdt::Counter(c) => {
                if serialized.len() != 8 {
                    *c = CounterCrdt::default();
                    return;
                }
                let array: [u8; 8] = [
                    serialized[0],
                    serialized[1],
                    serialized[2],
                    serialized[3],
                    serialized[4],
                    serialized[5],
                    serialized[6],
                    serialized[7],
                ];
                proof {
                    assert(array@ =~= serialized@);
                }
                *c = CounterCrdt::from_bytes(&array);
            },
        }
    }
}

} // verus!
