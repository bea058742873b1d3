//! The value a datatype hands back after applying one operation.
use vstd::prelude::*;

verus! {

/// What an applied operation returned: nothing, or the counter's new value.
#[derive(Debug, Clone, Copy, PartialEq, Eq, Structural)]
pub enum ReturnType {
    Nothing,
    Counter(i64),
}

} // verus!
