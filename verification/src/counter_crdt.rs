//! The counter state machine: a 64-bit signed value under commutative
//! addition, with a fixed 8-byte little-endian binary form.
use vstd::prelude::*;

use vstd::bytes::{
    lemma_auto_spec_u64_to_from_le_bytes, spec_u64_from_le_bytes, spec_u64_to_le_bytes,
    u64_from_le_bytes, u64_to_le_bytes,
};

use crate::common::ReturnType;
use crate::errors::DatatypeError;
use crate::operation::Operation;

verus! {

/// The 8-byte little-endian form of a counter value.
pub open spec fn counter_bytes(v: i64) -> Seq<u8> {
    spec_u64_to_le_bytes(v as u64)
}

/// The counter value an 8-byte little-endian form decodes to.
pub open spec fn counter_from_bytes(s: Seq<u8>) -> i64
    recommends
        s.len() == 8,
{
    spec_u64_from_le_bytes(s) as i64
}

/// Decoding the encoding of any counter value gives that value back, and
/// the encoding is always exactly 8 bytes.
pub proof fn lemma_counter_bytes_round_trip(v: i64)
    ensures
        counter_bytes(v).len() == 8,
        counter_from_bytes(counter_bytes(v)) == v,
{
    lemma_auto_spec_u64_to_from_le_bytes();
    assert(((v as u64) as i64) == v) by (bit_vector);
}

/// A counter: commutative addition on one signed 64-bit value.
#[derive(Debug)]
pub struct CounterCrdt {
    pub value: i64,
}

impl CounterCrdt {
    /// Adds `value` and returns the new total.
    pub fn increase_by(&mut self, value: i64) -> (r: i64)
        requires
            i64::MIN <= old(self).value + value <= i64::MAX,
        ensures
            final(self).value == old(self).value + value,
            r == final(self).value,
    {
        self.value = self.value + value;
        self.value
    }

    /// The current value.
    pub fn value(&self) -> (r: i64)
        ensures
            r == self.value,
    {
        self.value
    }

    /// Applies a counter operation; the body must match this kind.
    pub fn execute_local_operation(&mut self, op: &Operation) -> (r: Result<
        ReturnType,
        DatatypeError,
    >)
        requires
            op.body matches crate::body::OperationBody::CounterIncrease(b) && i64::MIN <= old(
                self,
            ).value + b.delta <= i64::MAX,
        ensures
            op.body matches crate::body::OperationBody::CounterIncrease(b) ==> {
                &&& final(self).value == old(self).value + b.delta
                &&& r == Result::<ReturnType, DatatypeError>::Ok(
                    ReturnType::Counter(final(self).value),
                )
            },
    {
        match op.body {
            crate::body::OperationBody::CounterIncrease(body) => {
                let ret = self.increase_by(body.delta);
                Ok(ReturnType::Counter(ret))
            },
            _ => vstd::pervasive::unreached(),
        }
    }

    /// Serializes the value to its 8-byte little-endian form.
    pub fn to_bytes(&self) -> (r: [u8; 8])
        ensures
            r@ == counter_bytes(self.value),
    {
        let v = u64_to_le_bytes(self.value as u64);
        let r: [u8; 8] = [v[0], v[1], v[2], v[3], v[4], v[5], v[6], v[7]];
        proof {
            assert(r@ =~= v@);
        }
        r
    }

    /// Deserializes a counter from its 8-byte little-endian form.
    pub fn from_bytes(bytes: &[u8; 8]) -> (r: Self)
        ensures
            r.value == counter_from_bytes(bytes@),
    {
        let u = u64_from_le_bytes(bytes.as_slice());
        CounterCrdt { value: u as i64 }
    }
}

impl Default for CounterCrdt {
    /// A counter starts at zero.
    fn default() -> (r: Self)
        ensures
            r.value == 0,
    {
        CounterCrdt { value: 0 }
    }
}

} // verus!
