//! The kinds of datatypes and the lifecycle states a datatype instance
//! moves through while it is synchronized with a coordinator.
use vstd::prelude::*;

verus! {

/// The kinds of conflict-free datatypes.
#[derive(Debug, Clone, Copy, PartialEq, Eq, Structural)]
pub enum DataType {
    Counter,
    Variable,
    List,
}

/// The lifecycle state of a datatype instance.
#[derive(Debug, Clone, Copy, PartialEq, Eq, Structural, Default)]
pub enum DatatypeState {
    /// Scheduled to be created on the coordinator.
    #[default]
    DueToCreate,
    /// Scheduled to be subscribed on the coordinator.
    DueToSubscribe,
    /// Scheduled to be subscribed, or created if it does not exist.
    DueToSubscribeOrCreate,
    /// Subscribed on the coordinator.
    Subscribed,
    /// Scheduled to be unsubscribed.
    DueToUnsubscribe,
    /// No longer synchronized.
    Closed,
    /// Scheduled to be deleted.
    DueToDelete,
    /// Deleted and synchronized.
    Deleted,
}

} // verus!
