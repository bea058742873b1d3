//! Bodies of operations: the payload of one intended mutation.
use vstd::prelude::*;

use crate::decimal::{dec_signed, i64_to_dec};
use crate::operation::MemoryMeasurable;

verus! {

/// The payload of one operation, tagged by the kind it mutates.
#[derive(Debug, Clone, Copy)]
pub enum OperationBody {
    /// A body that only waits and then succeeds or fails; used to exercise
    /// failure paths.
    Delay4Test(Delay4TestBody),
    /// A commutative addition on a counter.
    CounterIncrease(CounterIncreaseBody),
}

/// The display form of a body.
pub open spec fn body_display(b: OperationBody) -> Seq<char> {
    match b {
        OperationBody::Delay4Test(_) => "Delay4Test"@,
        OperationBody::CounterIncrease(c) => "CounterIncrease(delta="@ + dec_signed(c.delta as int)
            + ")"@,
    }
}

impl OperationBody {
    /// The display form.
    pub fn to_string(&self) -> (r: String)
        ensures
            r@ == body_display(*self),
    {
        match self {
            OperationBody::Delay4Test(_) => {
                let mut s = String::new();
                s.append("Delay4Test");
                s
            },
            OperationBody::CounterIncrease(c) => {
                let mut s = String::new();
                s.append("CounterIncrease(delta=");
                let d = i64_to_dec(c.delta);
                s.append(d.as_str());
                s.append(")");
                assert(s@ =~= body_display(*self));
                s
            },
        }
    }

    /// The debug form matches the display form.
    pub fn debug_string(&self) -> (r: String)
        ensures
            r@ == body_display(*self),
    {
        self.to_string()
    }
}

impl MemoryMeasurable for OperationBody {
    open spec fn spec_size(&self) -> nat {
        match self {
            OperationBody::Delay4Test(b) => b.spec_size(),
            OperationBody::CounterIncrease(b) => b.spec_size(),
        }
    }

    fn size(&self) -> (r: usize)
        ensures
            r == self.spec_size(),
    {
        match self {
            OperationBody::Delay4Test(b) => b.size(),
            OperationBody::CounterIncrease(b) => b.size(),
        }
    }
}

/// A body that stands in for slow work: it reports success or failure as
/// configured, after the given delay where a host cares to wait.
#[derive(Debug, Clone, Copy)]
pub struct Delay4TestBody {
    pub duration_ms: u64,
    pub success: bool,
}

impl Delay4TestBody {
    pub fn new(duration_ms: u64, success: bool) -> (r: Self)
        ensures
            r.duration_ms == duration_ms,
            r.success == success,
    {
        Self { duration_ms, success }
    }

    /// The display form of the delay body itself is empty; the variant
    /// name is carried by the operation body around it.
    pub fn to_string(&self) -> (r: String)
        ensures
            r@ == Seq::<char>::empty(),
    {
        String::new()
    }

    /// Succeeds exactly when the body was configured to succeed.
    pub fn run(&self) -> (r: Result<(), ()>)
        ensures
            r is Ok <==> self.success,
    {
        if self.success {
            Ok(())
        } else {
            Err(())
        }
    }
}

impl MemoryMeasurable for Delay4TestBody {
    open spec fn spec_size(&self) -> nat {
        9
    }

    fn size(&self) -> (r: usize)
        ensures
            r == self.spec_size(),
    {
        9
    }
}

/// The payload of a counter increment: the signed amount to add.
#[derive(Debug, Clone, Copy)]
pub struct CounterIncreaseBody {
    pub delta: i64,
}

impl CounterIncreaseBody {
    pub fn new(delta: i64) -> (r: Self)
        ensures
            r.delta == delta,
    {
        Self { delta }
    }
}

impl MemoryMeasurable for CounterIncreaseBody {
    open spec fn spec_size(&self) -> nat {
        8
    }

    fn size(&self) -> (r: usize)
        ensures
            r == self.spec_size(),
    {
        8
    }
}

} // verus!
