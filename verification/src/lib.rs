//! Client-side engine of a conflict-free replicated counter: causal
//! identities, operations, transactions, snapshot-based rollback, and the
//! transaction-ownership protocol, all with verified contracts.
use vstd::prelude::*;

pub mod body;
pub mod clients;
pub mod common;
pub mod constants;
pub mod counter_crdt;
pub mod crdt;
pub mod datatype;
pub mod decimal;
pub mod errors;
pub mod mutable;
pub mod operation;
pub mod operation_id;
pub mod rollback;
pub mod transaction;
pub mod transactional;
pub mod types;
pub mod uid;

pub use crate::datatype::Datatype;
pub use crate::errors::{ClientError, DatatypeError};
pub use crate::types::{DataType, DatatypeState};

verus! {

/// A trait for types that can be converted into a String and debugged,
/// bundling the two bounds that facade parameters need.
pub trait IntoString: Into<String> + core::fmt::Debug {

}

impl<T: Into<String> + core::fmt::Debug> IntoString for T {

}

} // verus!
