//! The rollback snapshot: the last known-good serialized state, the causal
//! identity and lifecycle state at that point, and the queue of
//! transactions committed since.
use vstd::prelude::*;

use crate::operation_id::OperationId;
use crate::transaction::Transaction;
use crate::types::DatatypeState;

verus! {

/// Snapshot plus committed history. Replaying `transactions` onto the
/// snapshot bytes reproduces the current committed state exactly.
pub struct RollbackData {
    pub crdt: Vec<u8>,
    pub op_id: OperationId,
    pub state: DatatypeState,
    pub transactions: Vec<Transaction>,
}

impl RollbackData {
    /// An empty snapshot: no bytes, a fresh identity, the default state.
    pub fn new() -> (r: Self)
        ensures
            r.crdt@.len() == 0,
            r.op_id.lamport == 0,
            r.op_id.cuid@ == "0000000000000000"@,
            r.op_id.cseq == 0,
            r.op_id.sseq == 0,
            r.state == DatatypeState::DueToCreate,
            r.transactions@.len() == 0,
    {
        RollbackData {
            crdt: Vec::new(),
            op_id: OperationId::new(),
            state: DatatypeState::DueToCreate,
            transactions: Vec::new(),
        }
    }

    /// Appends one committed transaction to the history.
    pub fn push_transaction(&mut self, tx: Transaction)
        ensures
            final(self).transactions@ == old(self).transactions@.push(tx),
            final(self).crdt@ == old(self).crdt@,
            final(self).op_id == old(self).op_id,
            final(self).state == old(self).state,
    {
        self.transactions.push(tx);
    }

    /// Takes a new snapshot: the given identity, bytes and state become the
    /// known-good point and the committed history is cleared.
    pub fn set(&mut self, op_id: &OperationId, crdt: Vec<u8>, state: DatatypeState)
        ensures
            final(self).crdt@ == crdt@,
            final(self).op_id.lamport == op_id.lamport,
            final(self).op_id.cuid@ == op_id.cuid@,
            final(self).op_id.cseq == op_id.cseq,
            final(self).op_id.sseq == op_id.sseq,
            final(self).state == state,
            final(self).transactions@.len() == 0,
    {
        self.op_id = op_id.clone();
        self.state = state;
        self.crdt = crdt;
        self.transactions.clear();
    }
}

} // verus!
