//! An operation: an immutable description of one intended mutation. Its
//! logical clock is assigned exactly once, at apply time.
use vstd::prelude::*;

use crate::body::{body_display, CounterIncreaseBody, Delay4TestBody, OperationBody};
use crate::decimal::dec_digits;
use crate::decimal::u64_to_dec;

verus! {

/// Types whose approximate memory footprint can be measured.
pub trait MemoryMeasurable {
    /// The footprint, as a mathematical value.
    spec fn spec_size(&self) -> nat;

    /// The footprint in bytes.
    fn size(&self) -> (r: usize)
        requires
            self.spec_size() <= usize::MAX,
        ensures
            r == self.spec_size(),
    ;
}

/// Relies on std's SystemTime::now and duration_since(UNIX_EPOCH):
/// milliseconds since the Unix epoch, truncated to 64 bits. The machine
/// clock decides the value, so nothing is promised of it.
#[verifier::external_body]
fn wall_clock_millis() -> u64 {
    match std::time::SystemTime::now().duration_since(std::time::UNIX_EPOCH) {
        Ok(d) => d.as_millis() as u64,
        Err(_) => 0,
    }
}

/// One intended mutation: the body, the logical clock assigned at apply
/// time (zero until then), and the wall-clock time of construction in
/// milliseconds since the Unix epoch.
#[derive(Debug, Clone, Copy)]
pub struct Operation {
    pub lamport: u64,
    pub body: OperationBody,
    pub at: u64,
}

/// The display form of an operation.
pub open spec fn op_display(op: Operation) -> Seq<char> {
    dec_digits(op.lamport as nat) + "."@ + body_display(op.body) + " "@ + dec_digits(op.at as nat)
        + ")"@
}

impl Operation {
    /// A new operation around the given body, stamped with the wall clock;
    /// the logical clock starts at zero.
    pub fn new(body: OperationBody) -> (r: Self)
        ensures
            r.lamport == 0,
            r.body == body,
    {
        Self { lamport: 0, body, at: wall_clock_millis() }
    }

    /// A new counter increment by `delta`.
    pub fn new_counter_increase(delta: i64) -> (r: Self)
        ensures
            r.lamport == 0,
            r.body matches OperationBody::CounterIncrease(b) && b.delta == delta,
    {
        Self::new(OperationBody::CounterIncrease(CounterIncreaseBody::new(delta)))
    }

    /// A new delay body that succeeds or fails as configured.
    pub fn new_delay_for_test(duration_ms: u64, success: bool) -> (r: Self)
        ensures
            r.lamport == 0,
            r.body matches OperationBody::Delay4Test(b) && b.duration_ms == duration_ms
                && b.success == success,
    {
        Self::new(OperationBody::Delay4Test(Delay4TestBody::new(duration_ms, success)))
    }

    /// Assigns the logical clock; done exactly once, at apply time.
    pub fn set_lamport(&mut self, lamport: u64)
        ensures
            final(self).lamport == lamport,
            final(self).body == old(self).body,
            final(self).at == old(self).at,
    {
        self.lamport = lamport;
    }

    /// The display form.
    pub fn to_string(&self) -> (r: String)
        ensures
            r@ == op_display(*self),
    {
        let mut s = u64_to_dec(self.lamport);
        s.append(".");
        let b = self.body.to_string();
        s.append(b.as_str());
        s.append(" ");
        let t = u64_to_dec(self.at);
        s.append(t.as_str());
        s.append(")");
        assert(s@ =~= op_display(*self));
        s
    }

    /// The debug form matches the display form.
    pub fn debug_string(&self) -> (r: String)
        ensures
            r@ == op_display(*self),
    {
        self.to_string()
    }
}

impl MemoryMeasurable for Operation {
    open spec fn spec_size(&self) -> nat {
        16 + self.body.spec_size()
    }

    fn size(&self) -> (r: usize)
        ensures
            r == self.spec_size(),
    {
        16 + self.body.size()
    }
}

} // verus!
