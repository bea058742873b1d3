//! Client metadata carried by every datatype instance, and the rule that
//! decides whether a key already bound to an instance can serve a new
//! subscribe-or-create demand.
use vstd::prelude::*;

use crate::types::{DataType, DatatypeState};
use crate::uid::{Cuid, Uid};

verus! {

/// The identity of one client: the collection it belongs to, its replica
/// id, and a human-readable alias.
pub struct ClientInfo {
    pub collection: String,
    pub cuid: Cuid,
    pub alias: String,
}

impl Clone for ClientInfo {
    fn clone(&self) -> (r: Self)
        ensures
            r.collection@ == self.collection@,
            r.cuid@ == self.cuid@,
            r.alias@ == self.alias@,
    {
        ClientInfo {
            collection: self.collection.clone(),
            cuid: self.cuid.clone(),
            alias: self.alias.clone(),
        }
    }
}

impl Default for ClientInfo {
    /// Empty names and the nil replica id.
    fn default() -> (r: Self)
        ensures
            r.collection@.len() == 0,
            r.cuid@ == "0000000000000000"@,
            r.alias@.len() == 0,
    {
        ClientInfo { collection: String::new(), cuid: Uid::new_nil(), alias: String::new() }
    }
}

/// Whether a datatype already bound to a key can serve a new demand: only
/// when the demanded kind and lifecycle state both match the existing
/// instance. Anything else is a registration conflict, returned to the
/// caller and never retried.
pub fn can_reuse_datatype(
    existing_type: DataType,
    existing_state: DatatypeState,
    demanded_type: DataType,
    demanded_state: DatatypeState,
) -> (r: bool)
    ensures
        r == (existing_type == demanded_type && existing_state == demanded_state),
{
    existing_type == demanded_type && existing_state == demanded_state
}

} // verus!
