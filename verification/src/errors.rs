//! Typed errors surfaced to callers. Two errors compare equal when they are
//! the same variant, whatever their message payloads.
use vstd::prelude::*;

verus! {

/// Errors of client-side datatype management.
#[derive(Debug)]
pub enum ClientError {
    /// A request to subscribe or create a datatype is incompatible with the
    /// instance already bound to the same key.
    FailedToSubscribeOrCreateDatatype(String),
}

impl ClientError {
    /// The display form: a fixed prefix followed by the message payload.
    pub fn to_string(&self) -> (r: String)
        ensures
            r@ == "Cannot subscribe or create datatype: "@ + self->FailedToSubscribeOrCreateDatatype_0@,
    {
        match self {
            ClientError::FailedToSubscribeOrCreateDatatype(msg) => {
                let mut s = String::new();
                s.append("Cannot subscribe or create datatype: ");
                s.append(msg.as_str());
                s
            },
        }
    }
}

impl Clone for ClientError {
    fn clone(&self) -> (r: Self)
        ensures
            r matches ClientError::FailedToSubscribeOrCreateDatatype(m) && m@
                == self->FailedToSubscribeOrCreateDatatype_0@,
    {
        match self {
            ClientError::FailedToSubscribeOrCreateDatatype(msg) => {
                ClientError::FailedToSubscribeOrCreateDatatype(msg.clone())
            },
        }
    }
}

impl PartialEq for ClientError {
    fn eq(&self, _other: &Self) -> (r: bool)
        ensures
            r,
    {
        true
    }
}

impl vstd::std_specs::cmp::PartialEqSpecImpl for ClientError {
    open spec fn obeys_eq_spec() -> bool {
        true
    }

    open spec fn eq_spec(&self, other: &Self) -> bool {
        true
    }
}

/// Errors that can occur while working with datatypes.
#[derive(Debug)]
pub enum DatatypeError {
    /// The body handed to a transaction returned an error; the state was
    /// rolled back.
    FailedTransaction(String),
    /// Decoding a datatype from bytes was not possible.
    FailedToDeserialize(String),
    /// A local operation could not be executed.
    FailedToExecuteOperation(String),
}

/// Which variant a datatype error is, as a tag usable in contracts.
pub open spec fn same_datatype_error_variant(a: &DatatypeError, b: &DatatypeError) -> bool {
    match (a, b) {
        (DatatypeError::FailedTransaction(_), DatatypeError::FailedTransaction(_)) => true,
        (DatatypeError::FailedToDeserialize(_), DatatypeError::FailedToDeserialize(_)) => true,
        (
            DatatypeError::FailedToExecuteOperation(_),
            DatatypeError::FailedToExecuteOperation(_),
        ) => true,
        _ => false,
    }
}

impl DatatypeError {
    /// The message payload of any variant.
    pub open spec fn spec_message(&self) -> Seq<char> {
        match self {
            DatatypeError::FailedTransaction(m) => m@,
            DatatypeError::FailedToDeserialize(m) => m@,
            DatatypeError::FailedToExecuteOperation(m) => m@,
        }
    }

    /// The display form: a per-variant prefix followed by the message.
    pub fn to_string(&self) -> (r: String)
        ensures
            self matches DatatypeError::FailedTransaction(_) ==> r@ == "failed to do transaction: "@
                + self.spec_message(),
            self matches DatatypeError::FailedToDeserialize(_) ==> r@ == "failed to deserialize: "@
                + self.spec_message(),
            self matches DatatypeError::FailedToExecuteOperation(_) ==> r@
                == "failed to execute operation: "@ + self.spec_message(),
    {
        let mut s = String::new();
        match self {
            DatatypeError::FailedTransaction(m) => {
                s.append("failed to do transaction: ");
                s.append(m.as_str());
            },
            DatatypeError::FailedToDeserialize(m) => {
                s.append("failed to deserialize: ");
                s.append(m.as_str());
            },
            DatatypeError::FailedToExecuteOperation(m) => {
                s.append("failed to execute operation: ");
                s.append(m.as_str());
            },
        }
        s
    }
}

impl Clone for DatatypeError {
    fn clone(&self) -> (r: Self)
        ensures
            same_datatype_error_variant(&r, self),
            r.spec_message() == self.spec_message(),
    {
        match self {
            DatatypeError::FailedTransaction(m) => DatatypeError::FailedTransaction(m.clone()),
            DatatypeError::FailedToDeserialize(m) => DatatypeError::FailedToDeserialize(m.clone()),
            DatatypeError::FailedToExecuteOperation(m) => DatatypeError::FailedToExecuteOperation(
                m.clone(),
            ),
        }
    }
}

impl PartialEq for DatatypeError {
    fn eq(&self, other: &Self) -> (r: bool)
        ensures
            r == same_datatype_error_variant(self, other),
    {
        match (self, other) {
            (DatatypeError::FailedTransaction(_), DatatypeError::FailedTransaction(_)) => true,
            (DatatypeError::FailedToDeserialize(_), DatatypeError::FailedToDeserialize(_)) => true,
            (
                DatatypeError::FailedToExecuteOperation(_),
                DatatypeError::FailedToExecuteOperation(_),
            ) => true,
            _ => false,
        }
    }
}

impl vstd::std_specs::cmp::PartialEqSpecImpl for DatatypeError {
    open spec fn obeys_eq_spec() -> bool {
        true
    }

    open spec fn eq_spec(&self, other: &Self) -> bool {
        same_datatype_error_variant(self, other)
    }
}

} // verus!
