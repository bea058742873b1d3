//! The transaction coordinator: decides which caller owns the active
//! transaction, applies operations beneath that ownership, and guarantees
//! commit-or-rollback when the owning call ends. Blocking on a busy owner
//! is the host's concern; the decision itself is made here.
use vstd::prelude::*;

use crate::clients::ClientInfo;
use crate::common::ReturnType;
use crate::crdt::crdt_value;
use crate::errors::DatatypeError;
use crate::mutable::{committed_value, last_cseq, op_replayable, wf, MutableDatatype};
use crate::operation::Operation;
use crate::types::{DataType, DatatypeState};
use crate::uid::{valid_uid, Duid, Uid};

verus! {

/// The identity of one logical transaction boundary. Two independently
/// created contexts never stand for the same transaction: each draws a
/// fresh random token, and equality compares tokens.
#[derive(Debug)]
pub struct TransactionContext {
    pub id: Uid,
    pub tag: Option<String>,
}

impl TransactionContext {
    /// A context carrying a human tag, under a fresh token.
    pub fn new(tag: String) -> (r: Self)
        ensures
            r.tag matches Some(t) && t@ == tag@,
            valid_uid(r.id@),
    {
        TransactionContext { id: Uid::new(), tag: Some(tag) }
    }

    /// Whether this context carries a tag. An anonymous context (no tag)
    /// marks a single-operation call rather than a named transaction.
    pub fn has_tag(&self) -> (r: bool)
        ensures
            r == (self.tag is Some),
    {
        self.tag.is_some()
    }
}

impl Clone for TransactionContext {
    fn clone(&self) -> (r: Self)
        ensures
            r.id@ == self.id@,
            r.tag is Some == self.tag is Some,
            r.tag matches Some(t) ==> (self.tag matches Some(t0) && t@ == t0@),
    {
        TransactionContext {
            id: self.id.clone(),
            tag: match &self.tag {
                Some(t) => Some(t.clone()),
                None => None,
            },
        }
    }
}

impl PartialEq for TransactionContext {
    /// Identity comparison: two contexts are equal exactly when they carry
    /// the same token.
    fn eq(&self, other: &Self) -> (r: bool)
        ensures
            r == (self.id@ == other.id@),
    {
        self.id == other.id
    }
}

impl vstd::std_specs::cmp::PartialEqSpecImpl for TransactionContext {
    open spec fn obeys_eq_spec() -> bool {
        true
    }

    open spec fn eq_spec(&self, other: &Self) -> bool {
        self.id@ == other.id@
    }
}

impl Default for TransactionContext {
    /// An anonymous context: a fresh token and no tag.
    fn default() -> (r: Self)
        ensures
            r.tag is None,
            valid_uid(r.id@),
    {
        TransactionContext { id: Uid::new(), tag: None }
    }
}

/// The three-way decision of the ownership protocol.
#[derive(Debug, Clone, Copy, PartialEq, Eq, Structural)]
pub enum BeginTransactionResult {
    /// No transaction was active; the caller is now the owner.
    BeginTx,
    /// The caller already owns the active transaction and is nested in it.
    SameCtx,
    /// Another context owns the active transaction; the caller must wait
    /// and retry.
    OtherCtx,
}

/// The immutable attributes of one datatype instance.
pub struct Attributes {
    pub key: String,
    pub data_type: DataType,
    pub duid: Duid,
    pub client_info: ClientInfo,
}

/// One datatype instance under the transaction protocol: its attributes,
/// its mutable cell, and the context that currently owns the active
/// transaction. A host that shares an instance across threads guards it
/// with its own locks; every transition of the protocol is decided here.
pub struct TransactionalDatatype {
    pub attr: Attributes,
    pub mutable: MutableDatatype,
    pub tx_ctx: Option<TransactionContext>,
}

/// Well-formedness of the coordinator: the cell is well-formed, and a
/// transaction is in flight only while some context owns it.
pub open spec fn coordinated(d: &TransactionalDatatype) -> bool {
    &&& wf(&d.mutable)
    &&& d.tx_ctx is None ==> d.mutable.transaction is None
}

impl TransactionalDatatype {
    /// A new instance: a zero-valued cell, immediately snapshotted, with
    /// no transaction and no owner.
    pub fn new(key: &str, data_type: DataType, state: DatatypeState, client_info: ClientInfo) -> (r:
        Self)
        requires
            data_type == DataType::Counter,
        ensures
            coordinated(&r),
            r.attr.key@ == key@,
            r.attr.data_type == data_type,
            r.mutable.state == state,
            crdt_value(&r.mutable.crdt) == 0,
            committed_value(&r.mutable) == 0,
            r.mutable.transaction is None,
            r.mutable.op_id.lamport == 0,
            r.mutable.op_id.cseq == 0,
            r.mutable.rollback.transactions@.len() == 0,
            r.tx_ctx is None,
    {
        let attr = Attributes { key: key.to_owned(), data_type, duid: Uid::new(), client_info };
        let mut mutable = MutableDatatype::new(data_type, state);
        mutable.set_rollback();
        TransactionalDatatype { attr, mutable, tx_ctx: None }
    }

    /// The three-way ownership decision. With no owner the caller becomes
    /// one — an anonymous caller through a substituted fresh context, so
    /// two unrelated anonymous calls can never look like one transaction.
    /// The owner itself proceeds nested; anyone else must wait and retry.
    pub fn begin_transaction(&mut self, tx_ctx: &TransactionContext) -> (r: BeginTransactionResult)
        requires
            coordinated(old(self)),
        ensures
            coordinated(final(self)),
            final(self).attr == old(self).attr,
            final(self).mutable == old(self).mutable,
            match r {
                BeginTransactionResult::BeginTx => {
                    &&& old(self).tx_ctx is None
                    &&& (final(self).tx_ctx matches Some(o) && {
                        &&& tx_ctx.tag matches Some(t0) ==> (o.id@ == tx_ctx.id@ && (o.tag
                            matches Some(t) && t@ == t0@))
                        &&& tx_ctx.tag is None ==> o.tag is None
                    })
                },
                BeginTransactionResult::SameCtx => {
                    &&& final(self).tx_ctx == old(self).tx_ctx
                    &&& (old(self).tx_ctx matches Some(o) && o.id@ == tx_ctx.id@)
                },
                BeginTransactionResult::OtherCtx => {
                    &&& final(self).tx_ctx == old(self).tx_ctx
                    &&& (old(self).tx_ctx matches Some(o) && o.id@ != tx_ctx.id@)
                },
            },
    {
        if self.tx_ctx.is_none() {
            let curr = if tx_ctx.has_tag() {
                tx_ctx.clone()
            } else {
                TransactionContext::default()
            };
            self.tx_ctx = Some(curr);
            return BeginTransactionResult::BeginTx;
        }
        let same = match &self.tx_ctx {
            Some(owner) => *owner == *tx_ctx,
            None => false,
        };
        if same {
            BeginTransactionResult::SameCtx
        } else {
            BeginTransactionResult::OtherCtx
        }
    }

    /// Applies one operation beneath the current ownership; the cell does
    /// the work and the bookkeeping.
    pub fn execute_local_operation(&mut self, op: Operation) -> (r: Result<
        ReturnType,
        DatatypeError,
    >)
        requires
            coordinated(old(self)),
            old(self).tx_ctx is Some,
            old(self).mutable.op_id.lamport < u64::MAX,
            old(self).mutable.op_id.cseq < u64::MAX,
            op.body matches crate::body::OperationBody::CounterIncrease(b) ==> i64::MIN
                <= crdt_value(&old(self).mutable.crdt) + b.delta <= i64::MAX,
        ensures
            coordinated(final(self)),
            final(self).attr == old(self).attr,
            final(self).tx_ctx == old(self).tx_ctx,
            final(self).mutable.rollback == old(self).mutable.rollback,
            final(self).mutable.op_id.lamport <= old(self).mutable.op_id.lamport + 1,
            committed_value(&final(self).mutable) == committed_value(&old(self).mutable),
            r is Ok == op_replayable(op),
            op_replayable(op) ==> {
                &&& crdt_value(&final(self).mutable.crdt) == crdt_value(&old(self).mutable.crdt)
                    + crate::mutable::op_delta(op)
                &&& (final(self).mutable.transaction matches Some(t) && t.operations@
                    == crate::mutable::active_ops(&old(self).mutable).push(
                    Operation {
                        lamport: (old(self).mutable.op_id.lamport + 1) as u64,
                        body: op.body,
                        at: op.at,
                    },
                ))
                &&& (old(self).mutable.transaction is None ==> final(self).mutable.op_id.cseq
                    == old(self).mutable.op_id.cseq + 1)
                &&& (old(self).mutable.transaction is Some ==> final(self).mutable.op_id.cseq
                    == old(self).mutable.op_id.cseq)
                &&& (op.body matches crate::body::OperationBody::CounterIncrease(b) ==> r
                    == Result::<ReturnType, DatatypeError>::Ok(
                    ReturnType::Counter((crdt_value(&old(self).mutable.crdt) + b.delta) as i64),
                ))
                &&& (op.body matches crate::body::OperationBody::Delay4Test(_) ==> r
                    == Result::<ReturnType, DatatypeError>::Ok(ReturnType::Nothing))
            },
            !op_replayable(op) ==> {
                &&& final(self).mutable.crdt == old(self).mutable.crdt
                &&& final(self).mutable.transaction == old(self).mutable.transaction
                &&& final(self).mutable.op_id.lamport == old(self).mutable.op_id.lamport
                &&& final(self).mutable.op_id.cseq == old(self).mutable.op_id.cseq
            },
    {
        self.mutable.execute_local_operation(op)
    }

    /// Ends the active transaction: the owner's tag is attached and the
    /// outcome decides between committing the batch into the rollback
    /// history and rolling the cell back to the committed state. The
    /// ownership slot is cleared either way.
    pub fn end_transaction(&mut self, committed: bool)
        requires
            coordinated(old(self)),
        ensures
            coordinated(final(self)),
            final(self).attr == old(self).attr,
            final(self).tx_ctx is None,
            final(self).mutable.transaction is None,
            final(self).mutable.op_id.lamport <= old(self).mutable.op_id.lamport,
            committed ==> {
                &&& crdt_value(&final(self).mutable.crdt) == crdt_value(&old(self).mutable.crdt)
                &&& committed_value(&final(self).mutable) == crdt_value(&old(self).mutable.crdt)
                &&& final(self).mutable.op_id.cseq == old(self).mutable.op_id.cseq
                &&& (match old(self).mutable.transaction {
                    Some(t0) => {
                        &&& final(self).mutable.rollback.transactions@ == old(
                            self,
                        ).mutable.rollback.transactions@.push(
                            final(self).mutable.rollback.transactions@.last(),
                        )
                        &&& final(self).mutable.rollback.transactions@.last().operations@
                            == t0.operations@
                        &&& final(self).mutable.rollback.transactions@.last().cseq == t0.cseq
                        &&& (old(self).tx_ctx matches Some(o) ==> {
                            &&& final(self).mutable.rollback.transactions@.last().tag is Some
                                == o.tag is Some
                            &&& (final(self).mutable.rollback.transactions@.last().tag matches Some(
                                t,
                            ) ==> (o.tag matches Some(t1) && t@ == t1@))
                        })
                    },
                    None => final(self).mutable.rollback == old(self).mutable.rollback,
                })
            },
            !committed ==> {
                &&& crdt_value(&final(self).mutable.crdt) == committed_value(&old(self).mutable)
                &&& committed_value(&final(self).mutable) == committed_value(&old(self).mutable)
                &&& final(self).mutable.rollback == old(self).mutable.rollback
                &&& final(self).mutable.op_id.cseq as nat == last_cseq(
                    old(self).mutable.rollback.op_id.cseq as nat,
                    old(self).mutable.rollback.transactions@,
                )
                &&& final(self).mutable.op_id.cseq <= old(self).mutable.op_id.cseq
            },
    {
        let tag: Option<String> = match &self.tx_ctx {
            Some(ctx) => match &ctx.tag {
                Some(t) => Some(t.clone()),
                None => None,
            },
            None => None,
        };
        self.mutable.end_transaction(tag, committed);
        self.tx_ctx = None;
    }

    /// Runs one operation as its own transaction when the caller is not
    /// nested in one: the decision, the application, and the guaranteed
    /// finalize — commit on success, rollback on failure — in one step.
    /// A caller nested in its own transaction (`SameCtx`) only applies the
    /// operation; its transaction stays open. A host facing `OtherCtx`
    /// waits for the owner and retries, so this step asks not to be called
    /// while another context owns the transaction.
    pub fn execute_local_operation_as_tx(
        &mut self,
        tx_ctx: &TransactionContext,
        op: Operation,
    ) -> (r: Result<ReturnType, DatatypeError>)
        requires
            coordinated(old(self)),
            old(self).tx_ctx matches Some(o) ==> o.id@ == tx_ctx.id@,
            old(self).mutable.op_id.lamport < u64::MAX,
            old(self).mutable.op_id.cseq < u64::MAX,
            op.body matches crate::body::OperationBody::CounterIncrease(b) ==> i64::MIN
                <= crdt_value(&old(self).mutable.crdt) + b.delta <= i64::MAX,
        ensures
            coordinated(final(self)),
            final(self).attr == old(self).attr,
            r is Ok == op_replayable(op),
            final(self).mutable.op_id.lamport <= old(self).mutable.op_id.lamport + 1,
            op_replayable(op) ==> {
                &&& crdt_value(&final(self).mutable.crdt) == crdt_value(&old(self).mutable.crdt)
                    + crate::mutable::op_delta(op)
                &&& (op.body matches crate::body::OperationBody::CounterIncrease(b) ==> r
                    == Result::<ReturnType, DatatypeError>::Ok(
                    ReturnType::Counter((crdt_value(&old(self).mutable.crdt) + b.delta) as i64),
                ))
                &&& (op.body matches crate::body::OperationBody::Delay4Test(_) ==> r
                    == Result::<ReturnType, DatatypeError>::Ok(ReturnType::Nothing))
            },
            // the caller was not nested: the operation ran as its own
            // transaction, committed on success and rolled back on failure,
            // so the history and the replica sequence record exactly that
            old(self).tx_ctx is None ==> {
                &&& final(self).tx_ctx is None
                &&& final(self).mutable.transaction is None
                &&& (op_replayable(op) ==> {
                    &&& committed_value(&final(self).mutable) == crdt_value(
                        &final(self).mutable.crdt,
                    )
                    &&& final(self).mutable.op_id.cseq == old(self).mutable.op_id.cseq + 1
                    &&& final(self).mutable.rollback.transactions@.len() == old(
                        self,
                    ).mutable.rollback.transactions@.len() + 1
                    &&& final(self).mutable.rollback.transactions@.last().operations@.len() == 1
                })
                &&& (!op_replayable(op) ==> {
                    &&& crdt_value(&final(self).mutable.crdt) == crdt_value(
                        &old(self).mutable.crdt,
                    )
                    &&& final(self).mutable.op_id.cseq == old(self).mutable.op_id.cseq
                    &&& final(self).mutable.rollback == old(self).mutable.rollback
                })
            },
            // the caller was nested in its own transaction, which stays open
            old(self).tx_ctx is Some ==> {
                &&& final(self).tx_ctx == old(self).tx_ctx
                &&& committed_value(&final(self).mutable) == committed_value(&old(self).mutable)
                &&& final(self).mutable.rollback == old(self).mutable.rollback
                &&& (!op_replayable(op) ==> crdt_value(&final(self).mutable.crdt) == crdt_value(
                    &old(self).mutable.crdt,
                ))
            },
    {
        proof {
            if old(self).tx_ctx is None {
                crate::mutable::lemma_idle_value_is_committed(&old(self).mutable);
            }
        }
        let decision = self.begin_transaction(tx_ctx);
        let is_owner = match decision {
            BeginTransactionResult::BeginTx => true,
            BeginTransactionResult::SameCtx => false,
            BeginTransactionResult::OtherCtx => vstd::pervasive::unreached(),
        };
        let result = self.execute_local_operation(op);
        if is_owner {
            let committed = result.is_ok();
            self.end_transaction(committed);
        }
        result
    }
}

} // verus!
