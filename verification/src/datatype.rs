//! The common interface of all conflict-free datatypes: a key, a kind,
//! and a lifecycle state.
use vstd::prelude::*;

use crate::transactional::TransactionalDatatype;
use crate::types::{DataType, DatatypeState};

verus! {

/// The common interface of datatype instances. Each exposes a unique key,
/// the kind of datatype it is, and its current lifecycle state.
pub trait Datatype {
    /// The key, as a mathematical value.
    spec fn key_spec(&self) -> Seq<char>;

    /// The kind, as a mathematical value.
    spec fn type_spec(&self) -> DataType;

    /// The lifecycle state, as a mathematical value.
    spec fn state_spec(&self) -> DatatypeState;

    /// The unique key of this instance.
    fn get_key(&self) -> (r: &str)
        ensures
            r@ == self.key_spec(),
    ;

    /// The kind of this instance.
    fn get_type(&self) -> (r: DataType)
        ensures
            r == self.type_spec(),
    ;

    /// The current lifecycle state of this instance.
    fn get_state(&self) -> (r: DatatypeState)
        ensures
            r == self.state_spec(),
    ;
}

impl Datatype for TransactionalDatatype {
    open spec fn key_spec(&self) -> Seq<char> {
        self.attr.key@
    }

    open spec fn type_spec(&self) -> DataType {
        self.attr.data_type
    }

    open spec fn state_spec(&self) -> DatatypeState {
        self.mutable.state
    }

    fn get_key(&self) -> (r: &str) {
        self.attr.key.as_str()
    }

    fn get_type(&self) -> (r: DataType) {
        self.attr.data_type
    }

    fn get_state(&self) -> (r: DatatypeState) {
        self.mutable.state
    }
}

} // verus!
