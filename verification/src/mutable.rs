//! The mutable cell of one datatype instance: the CRDT state, the causal
//! cursor, the lifecycle state, at most one in-flight transaction, and the
//! rollback snapshot. Its well-formedness invariant says that replaying
//! the committed transactions onto the snapshot reproduces the current
//! state exactly, which is what makes rollback exact.
use vstd::prelude::*;

use crate::body::OperationBody;
use crate::common::ReturnType;
use crate::counter_crdt::{counter_from_bytes, lemma_counter_bytes_round_trip};
use crate::crdt::{crdt_value, Crdt};
use crate::errors::DatatypeError;
use crate::operation::Operation;
use crate::operation_id::OperationId;
use crate::rollback::RollbackData;
use crate::transaction::Transaction;
use crate::types::{DataType, DatatypeState};

verus! {

/// How much an operation moves the counter: a delay body moves it by zero.
pub open spec fn op_delta(op: Operation) -> int {
    match op.body {
        OperationBody::CounterIncrease(b) => b.delta as int,
        OperationBody::Delay4Test(_) => 0,
    }
}

/// Whether a recorded operation replays without failing: increments always
/// do; a delay body only when it was configured to succeed.
pub open spec fn op_replayable(op: Operation) -> bool {
    match op.body {
        OperationBody::CounterIncrease(_) => true,
        OperationBody::Delay4Test(d) => d.success,
    }
}

/// Every operation of the sequence replays without failing.
pub open spec fn ops_replayable(ops: Seq<Operation>) -> bool {
    forall|i: int| 0 <= i < ops.len() ==> op_replayable(#[trigger] ops[i])
}

/// The counter value after applying `ops` in order, starting from `v`.
pub open spec fn apply_ops_value(v: int, ops: Seq<Operation>) -> int
    decreases ops.len(),
{
    if ops.len() == 0 {
        v
    } else {
        apply_ops_value(v + op_delta(ops[0]), ops.skip(1))
    }
}

/// Applying `ops` from `v` keeps every intermediate value within `i64`.
pub open spec fn apply_ops_in_bounds(v: int, ops: Seq<Operation>) -> bool
    decreases ops.len(),
{
    if ops.len() == 0 {
        true
    } else {
        &&& i64::MIN <= v + op_delta(ops[0]) <= i64::MAX
        &&& apply_ops_in_bounds(v + op_delta(ops[0]), ops.skip(1))
    }
}

/// The sum of the deltas of `ops`.
pub open spec fn sum_deltas(ops: Seq<Operation>) -> int
    decreases ops.len(),
{
    if ops.len() == 0 {
        0
    } else {
        op_delta(ops[0]) + sum_deltas(ops.skip(1))
    }
}

/// The logical clocks of `ops` are strictly increasing, and all above `lo`.
pub open spec fn lamport_chain(lo: nat, ops: Seq<Operation>) -> bool
    decreases ops.len(),
{
    if ops.len() == 0 {
        true
    } else {
        &&& ops[0].lamport > lo
        &&& lamport_chain(ops[0].lamport as nat, ops.skip(1))
    }
}

/// The logical clock after the last of `ops`, or `lo` when there is none.
pub open spec fn last_lamport(lo: nat, ops: Seq<Operation>) -> nat {
    if ops.len() == 0 {
        lo
    } else {
        ops.last().lamport as nat
    }
}

/// The replica-local sequence numbers of the queued transactions are
/// strictly increasing, and all above `lo`.
pub open spec fn cseq_chain(lo: nat, txs: Seq<Transaction>) -> bool
    decreases txs.len(),
{
    if txs.len() == 0 {
        true
    } else {
        &&& txs[0].cseq > lo
        &&& cseq_chain(txs[0].cseq as nat, txs.skip(1))
    }
}

/// The sequence number of the last queued transaction, or `lo` when the
/// queue is empty.
pub open spec fn last_cseq(lo: nat, txs: Seq<Transaction>) -> nat {
    if txs.len() == 0 {
        lo
    } else {
        txs.last().cseq as nat
    }
}

/// The operations that replay from a queue of transactions for the replica
/// `cuid`: transactions of other replicas are skipped.
pub open spec fn tx_ops_of(txs: Seq<Transaction>, cuid: Seq<char>) -> Seq<Operation>
    decreases txs.len(),
{
    if txs.len() == 0 {
        Seq::<Operation>::empty()
    } else {
        (if txs[0].cuid@ == cuid {
            txs[0].operations@
        } else {
            Seq::<Operation>::empty()
        }) + tx_ops_of(txs.skip(1), cuid)
    }
}

/// The value a snapshot's bytes decode to: the 8-byte little-endian
/// counter, or zero for any other length, as `Crdt::deserialize` recovers.
pub open spec fn bytes_value(bytes: Seq<u8>) -> int {
    if bytes.len() == 8 {
        counter_from_bytes(bytes) as int
    } else {
        0
    }
}

/// The mutable cell: CRDT state, lifecycle state, causal cursor, at most
/// one in-flight transaction, and the rollback snapshot.
pub struct MutableDatatype {
    pub crdt: Crdt,
    pub state: DatatypeState,
    pub op_id: OperationId,
    pub transaction: Option<Transaction>,
    pub rollback: RollbackData,
}

/// The value the rollback snapshot decodes to.
pub open spec fn snapshot_value(m: &MutableDatatype) -> int {
    bytes_value(m.rollback.crdt@)
}

/// The operations of the committed history that replay for this replica.
pub open spec fn committed_ops(m: &MutableDatatype) -> Seq<Operation> {
    tx_ops_of(m.rollback.transactions@, m.op_id.cuid@)
}

/// The committed value: the snapshot value with the committed history
/// replayed onto it. Rollback restores exactly this value.
pub open spec fn committed_value(m: &MutableDatatype) -> int {
    apply_ops_value(snapshot_value(m), committed_ops(m))
}

/// The operations of the in-flight transaction, if any.
pub open spec fn active_ops(m: &MutableDatatype) -> Seq<Operation> {
    match m.transaction {
        Some(t) => t.operations@,
        None => Seq::<Operation>::empty(),
    }
}

/// Everything applied since the snapshot: committed history first, then
/// the in-flight transaction.
pub open spec fn applied_ops(m: &MutableDatatype) -> Seq<Operation> {
    committed_ops(m) + active_ops(m)
}

/// Well-formedness of the cell.
pub open spec fn wf(m: &MutableDatatype) -> bool {
    // the queue holds only this replica's transactions, each non-empty
    &&& forall|i: int|
        0 <= i < m.rollback.transactions@.len() ==> {
            &&& (#[trigger] m.rollback.transactions@[i]).cuid@ == m.op_id.cuid@
            &&& m.rollback.transactions@[i].operations@.len() >= 1
        }
    // everything recorded replays without failing and stays within range
    &&& ops_replayable(applied_ops(m))
    &&& apply_ops_in_bounds(snapshot_value(m), applied_ops(m))
    // the current value is the snapshot with everything recorded applied
    &&& crdt_value(&m.crdt) == apply_ops_value(snapshot_value(m), applied_ops(m))
    // the snapshot's identity belongs to this replica
    &&& m.rollback.op_id.cuid@ == m.op_id.cuid@
    // transaction sequence bookkeeping
    &&& cseq_chain(m.rollback.op_id.cseq as nat, m.rollback.transactions@)
    &&& match m.transaction {
        Some(t) => {
            &&& t.cuid@ == m.op_id.cuid@
            &&& t.cseq == m.op_id.cseq
            &&& t.operations@.len() >= 1
            &&& m.op_id.cseq as nat == last_cseq(
                m.rollback.op_id.cseq as nat,
                m.rollback.transactions@,
            ) + 1
        },
        None => m.op_id.cseq as nat == last_cseq(
            m.rollback.op_id.cseq as nat,
            m.rollback.transactions@,
        ),
    }
    // logical clock bookkeeping
    &&& lamport_chain(m.rollback.op_id.lamport as nat, applied_ops(m))
    &&& m.op_id.lamport as nat == last_lamport(m.rollback.op_id.lamport as nat, applied_ops(m))
}

/// Applying a concatenation applies the parts in order.
pub proof fn lemma_apply_concat(v: int, a: Seq<Operation>, b: Seq<Operation>)
    ensures
        apply_ops_value(v, a + b) == apply_ops_value(apply_ops_value(v, a), b),
        apply_ops_in_bounds(v, a + b) == (apply_ops_in_bounds(v, a) && apply_ops_in_bounds(
            apply_ops_value(v, a),
            b,
        )),
    decreases a.len(),
{
    if a.len() == 0 {
        assert(a + b =~= b);
    } else {
        assert((a + b).skip(1) =~= a.skip(1) + b);
        lemma_apply_concat(v + op_delta(a[0]), a.skip(1), b);
    }
}

/// Applying one more operation adds its delta.
pub proof fn lemma_apply_push(v: int, ops: Seq<Operation>, op: Operation)
    ensures
        apply_ops_value(v, ops.push(op)) == apply_ops_value(v, ops) + op_delta(op),
        apply_ops_in_bounds(v, ops.push(op)) == (apply_ops_in_bounds(v, ops) && i64::MIN
            <= apply_ops_value(v, ops) + op_delta(op) <= i64::MAX),
    decreases ops.len(),
{
    let p = ops.push(op);
    if ops.len() == 0 {
        assert(p[0] == op);
        assert(p.skip(1) =~= Seq::<Operation>::empty());
        assert(apply_ops_value(v, p) == apply_ops_value(v + op_delta(op), p.skip(1)));
        assert(apply_ops_in_bounds(v, p) == (i64::MIN <= v + op_delta(op) <= i64::MAX
            && apply_ops_in_bounds(v + op_delta(op), p.skip(1))));
    } else {
        assert(p[0] == ops[0]);
        assert(p.skip(1) =~= ops.skip(1).push(op));
        lemma_apply_push(v + op_delta(ops[0]), ops.skip(1), op);
        assert(apply_ops_value(v, p) == apply_ops_value(v + op_delta(ops[0]), p.skip(1)));
        assert(apply_ops_in_bounds(v, p) == (i64::MIN <= v + op_delta(ops[0]) <= i64::MAX
            && apply_ops_in_bounds(v + op_delta(ops[0]), p.skip(1))));
    }
}

/// Applying operations moves the value by the sum of their deltas.
pub proof fn lemma_apply_is_sum(v: int, ops: Seq<Operation>)
    ensures
        apply_ops_value(v, ops) == v + sum_deltas(ops),
    decreases ops.len(),
{
    if ops.len() > 0 {
        lemma_apply_is_sum(v + op_delta(ops[0]), ops.skip(1));
    }
}

/// The sum of deltas splits over concatenation.
pub proof fn lemma_sum_concat(a: Seq<Operation>, b: Seq<Operation>)
    ensures
        sum_deltas(a + b) == sum_deltas(a) + sum_deltas(b),
    decreases a.len(),
{
    if a.len() == 0 {
        assert(a + b =~= b);
    } else {
        assert((a + b).skip(1) =~= a.skip(1) + b);
        lemma_sum_concat(a.skip(1), b);
    }
}

/// A chain splits over concatenation: the second part chains from where
/// the first part ended.
pub proof fn lemma_lamport_chain_concat(lo: nat, a: Seq<Operation>, b: Seq<Operation>)
    ensures
        lamport_chain(lo, a + b) == (lamport_chain(lo, a) && lamport_chain(
            last_lamport(lo, a),
            b,
        )),
        last_lamport(lo, a + b) == if b.len() == 0 {
            last_lamport(lo, a)
        } else {
            last_lamport(last_lamport(lo, a), b)
        },
    decreases a.len(),
{
    if a.len() == 0 {
        assert(a + b =~= b);
    } else {
        assert((a + b).skip(1) =~= a.skip(1) + b);
        lemma_lamport_chain_concat(a[0].lamport as nat, a.skip(1), b);
        if b.len() == 0 {
            assert(a + b =~= a);
        }
    }
}

/// Appending one operation keeps the chain exactly when its clock is newer
/// than everything before it.
pub proof fn lemma_lamport_chain_push(lo: nat, ops: Seq<Operation>, op: Operation)
    ensures
        lamport_chain(lo, ops.push(op)) == (lamport_chain(lo, ops) && op.lamport > last_lamport(
            lo,
            ops,
        )),
        last_lamport(lo, ops.push(op)) == op.lamport as nat,
    decreases ops.len(),
{
    let p = ops.push(op);
    if ops.len() == 0 {
        assert(p[0] == op);
        assert(p.skip(1) =~= Seq::<Operation>::empty());
        assert(p.last() == op);
        assert(lamport_chain(lo, p) == (op.lamport > lo && lamport_chain(
            op.lamport as nat,
            p.skip(1),
        )));
    } else {
        assert(p[0] == ops[0]);
        assert(p.skip(1) =~= ops.skip(1).push(op));
        lemma_lamport_chain_push(ops[0].lamport as nat, ops.skip(1), op);
        assert(p.last() == op);
        assert(lamport_chain(lo, p) == (ops[0].lamport > lo && lamport_chain(
            ops[0].lamport as nat,
            p.skip(1),
        )));
        if ops.len() == 1 {
            assert(ops.last() == ops[0]);
        } else {
            assert(ops.skip(1).last() == ops.last());
        }
    }
}

/// A queue extended by one local transaction replays the old queue's
/// operations, then the new transaction's.
pub proof fn lemma_tx_ops_push(txs: Seq<Transaction>, cuid: Seq<char>, tx: Transaction)
    ensures
        tx_ops_of(txs.push(tx), cuid) == tx_ops_of(txs, cuid) + (if tx.cuid@ == cuid {
            tx.operations@
        } else {
            Seq::<Operation>::empty()
        }),
    decreases txs.len(),
{
    if txs.len() == 0 {
        let p = txs.push(tx);
        assert(p[0] == tx);
        assert(p.skip(1) =~= Seq::<Transaction>::empty());
        assert(tx_ops_of(p.skip(1), cuid) == Seq::<Operation>::empty());
        assert(tx_ops_of(txs, cuid) + (if tx.cuid@ == cuid {
            tx.operations@
        } else {
            Seq::<Operation>::empty()
        }) =~= tx_ops_of(p, cuid));
    } else {
        assert(txs.push(tx)[0] == txs[0]);
        assert(txs.push(tx).skip(1) =~= txs.skip(1).push(tx));
        lemma_tx_ops_push(txs.skip(1), cuid, tx);
        assert((if txs[0].cuid@ == cuid {
            txs[0].operations@
        } else {
            Seq::<Operation>::empty()
        }) + (tx_ops_of(txs.skip(1), cuid) + (if tx.cuid@ == cuid {
            tx.operations@
        } else {
            Seq::<Operation>::empty()
        })) =~= tx_ops_of(txs, cuid) + (if tx.cuid@ == cuid {
            tx.operations@
        } else {
            Seq::<Operation>::empty()
        }));
    }
}

/// A queue splits at any index: the prefix replays first, then the rest.
pub proof fn lemma_tx_ops_split(txs: Seq<Transaction>, cuid: Seq<char>, i: int)
    requires
        0 <= i <= txs.len(),
    ensures
        tx_ops_of(txs, cuid) == tx_ops_of(txs.take(i), cuid) + tx_ops_of(txs.skip(i), cuid),
    decreases i,
{
    if i == 0 {
        assert(txs.take(0) =~= Seq::<Transaction>::empty());
        assert(txs.skip(0) =~= txs);
        assert(tx_ops_of(txs.take(0), cuid) + tx_ops_of(txs, cuid) =~= tx_ops_of(txs, cuid));
    } else {
        lemma_tx_ops_split(txs, cuid, i - 1);
        assert(txs.take(i) =~= txs.take(i - 1).push(txs[i - 1]));
        lemma_tx_ops_push(txs.take(i - 1), cuid, txs[i - 1]);
        assert(txs.skip(i - 1) =~= seq![txs[i - 1]] + txs.skip(i));
        assert((seq![txs[i - 1]] + txs.skip(i)).skip(1) =~= txs.skip(i));
        assert(tx_ops_of(txs.take(i - 1), cuid) + (tx_ops_of(txs.skip(i - 1), cuid)) =~= (
        tx_ops_of(txs.take(i), cuid)) + tx_ops_of(txs.skip(i), cuid));
    }
}

/// The chain of sequence numbers splits at any index.
pub proof fn lemma_cseq_chain_split(lo: nat, txs: Seq<Transaction>, i: int)
    requires
        0 <= i <= txs.len(),
        cseq_chain(lo, txs),
    ensures
        cseq_chain(lo, txs.take(i)),
        cseq_chain(last_cseq(lo, txs.take(i)), txs.skip(i)),
        last_cseq(lo, txs) == last_cseq(last_cseq(lo, txs.take(i)), txs.skip(i)),
    decreases i,
{
    if i == 0 {
        assert(txs.take(0) =~= Seq::<Transaction>::empty());
        assert(txs.skip(0) =~= txs);
    } else {
        lemma_cseq_chain_split(lo, txs, i - 1);
        let pre = txs.take(i - 1);
        let l1 = last_cseq(lo, pre);
        assert(txs.skip(i - 1)[0] == txs[i - 1]);
        assert(txs.skip(i - 1).skip(1) =~= txs.skip(i));
        assert(txs.take(i) =~= txs.take(i - 1).push(txs[i - 1]));
        assert(txs.take(i).last() == txs[i - 1]);
        if i < txs.len() {
            assert(txs.skip(i).len() > 0 ==> last_cseq(lo, txs) == last_cseq(
                txs[i - 1].cseq as nat,
                txs.skip(i),
            ));
        }
        // chain over the grown prefix
        lemma_cseq_chain_snoc(lo, pre, txs[i - 1]);
    }
}

/// Appending one transaction whose number exceeds the last keeps the chain.
pub proof fn lemma_cseq_chain_snoc(lo: nat, txs: Seq<Transaction>, tx: Transaction)
    ensures
        cseq_chain(lo, txs.push(tx)) == (cseq_chain(lo, txs) && tx.cseq > last_cseq(lo, txs)),
        last_cseq(lo, txs.push(tx)) == tx.cseq as nat,
    decreases txs.len(),
{
    let p = txs.push(tx);
    if txs.len() == 0 {
        assert(p[0] == tx);
        assert(p.skip(1) =~= Seq::<Transaction>::empty());
        assert(p.last() == tx);
        assert(cseq_chain(lo, p) == (tx.cseq > lo && cseq_chain(tx.cseq as nat, p.skip(1))));
    } else {
        assert(p[0] == txs[0]);
        assert(p.skip(1) =~= txs.skip(1).push(tx));
        lemma_cseq_chain_snoc(txs[0].cseq as nat, txs.skip(1), tx);
        assert(p.last() == tx);
        assert(cseq_chain(lo, p) == (txs[0].cseq > lo && cseq_chain(
            txs[0].cseq as nat,
            p.skip(1),
        )));
        if txs.len() == 1 {
            assert(txs.last() == txs[0]);
        } else {
            assert(txs.skip(1).last() == txs.last());
        }
    }
}

/// Under a chained history the clock after a prefix never exceeds the
/// clock after the whole history.
pub proof fn lemma_prefix_last_lamport_le(lo: nat, a: Seq<Operation>, b: Seq<Operation>)
    requires
        lamport_chain(lo, a + b),
    ensures
        last_lamport(lo, a) <= last_lamport(lo, a + b),
{
    lemma_lamport_chain_concat(lo, a, b);
    if b.len() == 0 {
        assert(a + b =~= a);
    } else {
        assert((a + b).last() == b.last());
        if b.len() > 1 {
            lemma_chain_pairwise(last_lamport(lo, a), b, 0, b.len() - 1);
        }
    }
}

/// In a chained history the logical clocks are strictly increasing in
/// application order.
pub proof fn lemma_chain_pairwise(lo: nat, ops: Seq<Operation>, i: int, j: int)
    requires
        lamport_chain(lo, ops),
        0 <= i < j < ops.len(),
    ensures
        ops[i].lamport < ops[j].lamport,
        ops[i].lamport > lo,
    decreases ops.len(),
{
    if i == 0 {
        if j == 1 {
            assert(ops.skip(1)[0] == ops[1]);
        } else {
            lemma_chain_pairwise(ops[0].lamport as nat, ops.skip(1), 0, j - 1);
            assert(ops.skip(1)[0] == ops[1]);
            assert(ops.skip(1)[j - 1] == ops[j]);
        }
    } else {
        lemma_chain_pairwise(ops[0].lamport as nat, ops.skip(1), i - 1, j - 1);
        assert(ops.skip(1)[i - 1] == ops[i]);
        assert(ops.skip(1)[j - 1] == ops[j]);
    }
}

impl MutableDatatype {
    /// A fresh cell of the given kind in the given lifecycle state: a
    /// zero-valued CRDT, a fresh causal cursor, no transaction, and an
    /// empty snapshot (which also decodes to the zero value).
    pub fn new(kind: DataType, state: DatatypeState) -> (r: Self)
        requires
            kind == DataType::Counter,
        ensures
            wf(&r),
            r.state == state,
            crdt_value(&r.crdt) == 0,
            r.transaction is None,
            r.op_id.lamport == 0,
            r.op_id.cuid@ == "0000000000000000"@,
            r.op_id.cseq == 0,
            r.op_id.sseq == 0,
            r.rollback.transactions@.len() == 0,
            r.rollback.crdt@.len() == 0,
            committed_value(&r) == 0,
    {
        let r = MutableDatatype {
            crdt: Crdt::new(kind),
            state,
            op_id: OperationId::new(),
            transaction: None,
            rollback: RollbackData::new(),
        };
        proof {
            assert(applied_ops(&r) =~= Seq::<Operation>::empty());
        }
        r
    }

    /// Takes a new snapshot at the current state: afterwards the committed
    /// history is empty and the snapshot decodes to the current value.
    pub fn set_rollback(&mut self)
        requires
            wf(old(self)),
            old(self).transaction is None,
        ensures
            wf(final(self)),
            final(self).crdt == old(self).crdt,
            final(self).state == old(self).state,
            final(self).op_id == old(self).op_id,
            final(self).transaction is None,
            final(self).rollback.transactions@.len() == 0,
            final(self).rollback.state == old(self).state,
            final(self).rollback.op_id.lamport == old(self).op_id.lamport,
            final(self).rollback.op_id.cuid@ == old(self).op_id.cuid@,
            final(self).rollback.op_id.cseq == old(self).op_id.cseq,
            final(self).rollback.op_id.sseq == old(self).op_id.sseq,
            old(self).crdt matches Crdt::Counter(c) ==> final(self).rollback.crdt@
                == crate::counter_crdt::counter_bytes(c.value),
            snapshot_value(final(self)) == crdt_value(&old(self).crdt),
            committed_value(final(self)) == crdt_value(&old(self).crdt),
    {
        let bytes = self.crdt.serialize();
        self.rollback.set(&self.op_id, bytes, self.state);
        proof {
            match &self.crdt {
                Crdt::Counter(c) => lemma_counter_bytes_round_trip(c.value),
            }
            assert(applied_ops(self) =~= Seq::<Operation>::empty());
        }
    }

    /// Replays one recorded operation during rollback: merges the recorded
    /// identity into the cursor and re-applies the operation.
    fn replay_local_operation(&mut self, op: Operation, op_id: &OperationId) -> (r: Result<
        ReturnType,
        DatatypeError,
    >)
        requires
            op_replayable(op),
            op.body matches OperationBody::CounterIncrease(b) ==> i64::MIN <= crdt_value(
                &old(self).crdt,
            ) + b.delta <= i64::MAX,
        ensures
            r is Ok,
            crdt_value(&final(self).crdt) == crdt_value(&old(self).crdt) + op_delta(op),
            final(self).op_id.lamport == if op_id.lamport > old(self).op_id.lamport {
                op_id.lamport
            } else {
                old(self).op_id.lamport
            },
            final(self).op_id.cseq == if op_id.cuid@ == old(self).op_id.cuid@ && op_id.cseq > old(
                self,
            ).op_id.cseq {
                op_id.cseq
            } else {
                old(self).op_id.cseq
            },
            final(self).op_id.cuid@ == old(self).op_id.cuid@,
            final(self).op_id.sseq == old(self).op_id.sseq,
            final(self).state == old(self).state,
            final(self).transaction == old(self).transaction,
            final(self).rollback == old(self).rollback,
    {
        self.op_id.sync(op_id);
        let result = self.crdt.execute_local_operation(&op);
        match result {
            Ok(v) => Ok(v),
            Err(_) => vstd::pervasive::unreached(),
        }
    }

    /// Replays one queued transaction during rollback, if it originated
    /// from this replica; a remote transaction is left to the remote-merge
    /// collaborator and skipped here.
    fn replay_transaction(&mut self, i: usize)
        requires
            i < old(self).rollback.transactions@.len(),
            old(self).rollback.transactions@[i as int].cuid@ == old(self).op_id.cuid@ ==> {
                let ops = old(self).rollback.transactions@[i as int].operations@;
                &&& ops_replayable(ops)
                &&& apply_ops_in_bounds(crdt_value(&old(self).crdt), ops)
                &&& lamport_chain(old(self).op_id.lamport as nat, ops)
                &&& old(self).rollback.transactions@[i as int].cseq > old(self).op_id.cseq
                &&& ops.len() >= 1
            },
        ensures
            final(self).rollback == old(self).rollback,
            final(self).state == old(self).state,
            final(self).transaction == old(self).transaction,
            final(self).op_id.cuid@ == old(self).op_id.cuid@,
            final(self).op_id.sseq == old(self).op_id.sseq,
            ({
                let tx = old(self).rollback.transactions@[i as int];
                if tx.cuid@ == old(self).op_id.cuid@ {
                    &&& crdt_value(&final(self).crdt) == apply_ops_value(
                        crdt_value(&old(self).crdt),
                        tx.operations@,
                    )
                    &&& final(self).op_id.lamport as nat == last_lamport(
                        old(self).op_id.lamport as nat,
                        tx.operations@,
                    )
                    &&& final(self).op_id.cseq == tx.cseq
                } else {
                    &&& final(self).crdt == old(self).crdt
                    &&& final(self).op_id == old(self).op_id
                }
            }),
    {
        let is_local = self.rollback.transactions[i].cuid == self.op_id.cuid;
        if is_local {
            let ghost tx = self.rollback.transactions@[i as int];
            let ghost ops = tx.operations@;
            let mut rid = self.rollback.transactions[i].get_op_id();
            let n_ops = self.rollback.transactions[i].operations.len();
            let mut j: usize = 0;
            proof {
                assert(ops.take(0) =~= Seq::<Operation>::empty());
            }
            while j < n_ops
                invariant
                    n_ops == ops.len(),
                    j <= n_ops,
                    i < self.rollback.transactions@.len(),
                    self.rollback == old(self).rollback,
                    tx == old(self).rollback.transactions@[i as int],
                    ops == tx.operations@,
                    tx.cuid@ == old(self).op_id.cuid@,
                    ops_replayable(ops),
                    apply_ops_in_bounds(crdt_value(&old(self).crdt), ops),
                    lamport_chain(old(self).op_id.lamport as nat, ops),
                    tx.cseq > old(self).op_id.cseq,
                    self.state == old(self).state,
                    self.transaction == old(self).transaction,
                    self.op_id.cuid@ == old(self).op_id.cuid@,
                    self.op_id.sseq == old(self).op_id.sseq,
                    rid.cuid@ == tx.cuid@,
                    rid.cseq == tx.cseq,
                    crdt_value(&self.crdt) == apply_ops_value(
                        crdt_value(&old(self).crdt),
                        ops.take(j as int),
                    ),
                    self.op_id.lamport as nat == last_lamport(
                        old(self).op_id.lamport as nat,
                        ops.take(j as int),
                    ),
                    self.op_id.cseq == if j == 0 {
                        old(self).op_id.cseq
                    } else {
                        tx.cseq
                    },
                decreases n_ops - j,
            {
                let op = self.rollback.transactions[i].operations[j];
                rid.lamport = op.lamport;
                proof {
                    assert(ops.take(j as int).push(op) =~= ops.take(j + 1));
                    lemma_apply_concat(crdt_value(&old(self).crdt), ops.take(j as int), ops.skip(
                        j as int,
                    ));
                    assert(ops.take(j as int) + ops.skip(j as int) =~= ops);
                    assert(ops.skip(j as int)[0] == op);
                    lemma_lamport_chain_concat(
                        old(self).op_id.lamport as nat,
                        ops.take(j as int),
                        ops.skip(j as int),
                    );
                    lemma_apply_push(crdt_value(&old(self).crdt), ops.take(j as int), op);
                    lemma_lamport_chain_push(old(self).op_id.lamport as nat, ops.take(j as int), op);
                    assert(op_replayable(op));
                }
                let _ = self.replay_local_operation(op, &rid);
                j += 1;
            }
            proof {
                assert(ops.take(n_ops as int) =~= ops);
            }
        }
    }

    /// Rolls the cell back to its committed state: restores the causal
    /// identity, lifecycle state and CRDT bytes from the snapshot, discards
    /// the in-flight transaction, and replays the committed history. The
    /// value afterwards is exactly the committed value.
    pub fn do_rollback(&mut self)
        requires
            wf(old(self)),
        ensures
            wf(final(self)),
            final(self).transaction is None,
            final(self).rollback == old(self).rollback,
            final(self).state == old(self).rollback.state,
            final(self).op_id.cuid@ == old(self).op_id.cuid@,
            final(self).op_id.lamport as nat == last_lamport(
                old(self).rollback.op_id.lamport as nat,
                committed_ops(old(self)),
            ),
            final(self).op_id.cseq as nat == last_cseq(
                old(self).rollback.op_id.cseq as nat,
                old(self).rollback.transactions@,
            ),
            crdt_value(&final(self).crdt) == committed_value(old(self)),
            committed_value(final(self)) == committed_value(old(self)),
    {
        let restored = self.rollback.op_id.clone();
        self.op_id = restored;
        self.state = self.rollback.state;
        self.transaction = None;
        self.crdt.deserialize(self.rollback.crdt.as_slice());
        let ghost cuid = self.op_id.cuid@;
        let ghost txs = self.rollback.transactions@;
        let ghost snap = snapshot_value(old(self));
        proof {
            // the committed history alone is chained and in bounds
            lemma_apply_concat(snap, committed_ops(old(self)), active_ops(old(self)));
            lemma_lamport_chain_concat(
                old(self).rollback.op_id.lamport as nat,
                committed_ops(old(self)),
                active_ops(old(self)),
            );
            assert(txs.take(0) =~= Seq::<Transaction>::empty());
            assert(tx_ops_of(txs.take(0), cuid) =~= Seq::<Operation>::empty());
        }
        let n = self.rollback.transactions.len();
        let mut i: usize = 0;
        while i < n
            invariant
                wf(old(self)),
                n == txs.len(),
                i <= n,
                cuid == old(self).op_id.cuid@,
                txs == old(self).rollback.transactions@,
                snap == snapshot_value(old(self)),
                self.rollback == old(self).rollback,
                self.transaction is None,
                self.state == old(self).rollback.state,
                self.op_id.cuid@ == cuid,
                self.op_id.sseq == old(self).rollback.op_id.sseq,
                crdt_value(&self.crdt) == apply_ops_value(snap, tx_ops_of(txs.take(i as int), cuid)),
                self.op_id.lamport as nat == last_lamport(
                    old(self).rollback.op_id.lamport as nat,
                    tx_ops_of(txs.take(i as int), cuid),
                ),
                self.op_id.cseq as nat == last_cseq(
                    old(self).rollback.op_id.cseq as nat,
                    txs.take(i as int),
                ),
            decreases n - i,
        {
            proof {
                let pre_ops = tx_ops_of(txs.take(i as int), cuid);
                let com = committed_ops(old(self));
                assert(old(self).rollback.transactions@[i as int].cuid@ == old(self).op_id.cuid@);
                assert(old(self).rollback.transactions@[i as int].operations@.len() >= 1);
                lemma_tx_ops_split(txs, cuid, i as int);
                // the remaining operations begin with this transaction's
                assert(txs.skip(i as int)[0] == txs[i as int]);
                assert(txs.skip(i as int).skip(1) =~= txs.skip(i + 1));
                assert(tx_ops_of(txs.skip(i as int), cuid) == txs[i as int].operations@ + tx_ops_of(
                    txs.skip(i + 1),
                    cuid,
                ));
                // bounds and chain for this transaction's operations
                lemma_apply_concat(snap, com, active_ops(old(self)));
                lemma_apply_concat(snap, pre_ops, tx_ops_of(txs.skip(i as int), cuid));
                assert(pre_ops + tx_ops_of(txs.skip(i as int), cuid) =~= com);
                lemma_apply_concat(
                    apply_ops_value(snap, pre_ops),
                    txs[i as int].operations@,
                    tx_ops_of(txs.skip(i + 1), cuid),
                );
                lemma_lamport_chain_concat(
                    old(self).rollback.op_id.lamport as nat,
                    com,
                    active_ops(old(self)),
                );
                lemma_lamport_chain_concat(
                    old(self).rollback.op_id.lamport as nat,
                    pre_ops,
                    tx_ops_of(txs.skip(i as int), cuid),
                );
                lemma_lamport_chain_concat(
                    last_lamport(old(self).rollback.op_id.lamport as nat, pre_ops),
                    txs[i as int].operations@,
                    tx_ops_of(txs.skip(i + 1), cuid),
                );
                lemma_cseq_chain_split(old(self).rollback.op_id.cseq as nat, txs, i as int);
                assert(txs.skip(i as int)[0] == txs[i as int]);
                assert(txs[i as int].cseq > last_cseq(
                    old(self).rollback.op_id.cseq as nat,
                    txs.take(i as int),
                ));
                // this transaction's operations all replay, by their place
                // in the committed history
                let mid = txs[i as int].operations@;
                let rest = tx_ops_of(txs.skip(i + 1), cuid);
                assert forall|k: int| 0 <= k < mid.len() implies op_replayable(
                    #[trigger] mid[k],
                ) by {
                    assert(com == pre_ops + (mid + rest));
                    assert(mid[k] == (mid + rest)[k]);
                    assert(com[pre_ops.len() + k] == mid[k]);
                    assert(applied_ops(old(self))[pre_ops.len() + k] == com[pre_ops.len() + k]);
                    assert(op_replayable(applied_ops(old(self))[pre_ops.len() + k]));
                }
                assert(ops_replayable(mid));
            }
            self.replay_transaction(i);
            proof {
                let pre_ops = tx_ops_of(txs.take(i as int), cuid);
                let mid = txs[i as int].operations@;
                assert(old(self).rollback.transactions@[i as int].cuid@ == old(self).op_id.cuid@);
                assert(old(self).rollback.transactions@[i as int].operations@.len() >= 1);
                assert(txs.take(i + 1) =~= txs.take(i as int).push(txs[i as int]));
                lemma_tx_ops_push(txs.take(i as int), cuid, txs[i as int]);
                assert(tx_ops_of(txs.take(i + 1), cuid) == pre_ops + mid);
                lemma_apply_concat(snap, pre_ops, mid);
                assert(txs.take(i + 1).last() == txs[i as int]);
                assert((pre_ops + mid).last() == mid.last());
            }
            i += 1;
        }
        proof {
            assert(txs.take(n as int) =~= txs);
            // the restored state is well-formed: its applied history is the
            // committed history alone
            let com = committed_ops(old(self));
            lemma_apply_concat(snap, com, active_ops(old(self)));
            lemma_lamport_chain_concat(
                old(self).rollback.op_id.lamport as nat,
                com,
                active_ops(old(self)),
            );
            assert(applied_ops(self) =~= com);
            assert forall|k: int| 0 <= k < com.len() implies op_replayable(#[trigger] com[k]) by {
                assert(applied_ops(old(self))[k] == com[k]);
                assert(op_replayable(applied_ops(old(self))[k]));
            }
            assert(ops_replayable(com));
            assert forall|k: int|
                0 <= k < self.rollback.transactions@.len() implies ((
                #[trigger] self.rollback.transactions@[k]).cuid@ == self.op_id.cuid@
                && self.rollback.transactions@[k].operations@.len() >= 1) by {
                assert(self.rollback.transactions@[k] == old(self).rollback.transactions@[k]);
                assert(old(self).rollback.transactions@[k].cuid@ == old(self).op_id.cuid@);
            }
        }
    }

    /// Ends the in-flight transaction. Committed, it takes the tag and
    /// joins the committed history; not committed, the cell rolls back to
    /// exactly the committed state.
    pub fn end_transaction(&mut self, tag: Option<String>, committed: bool)
        requires
            wf(old(self)),
        ensures
            wf(final(self)),
            final(self).transaction is None,
            committed ==> {
                &&& final(self).crdt == old(self).crdt
                &&& final(self).state == old(self).state
                &&& final(self).op_id.lamport == old(self).op_id.lamport
                &&& final(self).op_id.cseq == old(self).op_id.cseq
                &&& final(self).op_id.cuid@ == old(self).op_id.cuid@
                &&& crdt_value(&final(self).crdt) == crdt_value(&old(self).crdt)
                &&& committed_value(final(self)) == crdt_value(&old(self).crdt)
                &&& (match old(self).transaction {
                    Some(t0) => {
                        &&& final(self).rollback.transactions@ == old(
                            self,
                        ).rollback.transactions@.push(final(self).rollback.transactions@.last())
                        &&& final(self).rollback.transactions@.last().operations@ == t0.operations@
                        &&& final(self).rollback.transactions@.last().tag == tag
                        &&& final(self).rollback.transactions@.last().cseq == t0.cseq
                        &&& final(self).rollback.transactions@.last().cuid@ == t0.cuid@
                        &&& final(self).rollback.transactions@.last().sseq == t0.sseq
                        &&& final(self).rollback.transactions@.last().event == t0.event
                    },
                    None => final(self).rollback == old(self).rollback,
                })
            },
            !committed ==> {
                &&& final(self).rollback == old(self).rollback
                &&& final(self).state == old(self).rollback.state
                &&& final(self).op_id.lamport <= old(self).op_id.lamport
                &&& final(self).op_id.cseq <= old(self).op_id.cseq
                &&& crdt_value(&final(self).crdt) == committed_value(old(self))
                &&& committed_value(final(self)) == committed_value(old(self))
            },
    {
        proof {
            if !committed {
                lemma_prefix_last_lamport_le(
                    old(self).rollback.op_id.lamport as nat,
                    committed_ops(old(self)),
                    active_ops(old(self)),
                );
            }
        }
        if committed {
            let took = self.transaction.take();
            match took {
                Some(mut tx) => {
                    tx.set_tag(tag);
                    proof {
                        lemma_tx_ops_push(old(self).rollback.transactions@, old(self).op_id.cuid@, tx);
                        lemma_cseq_chain_snoc(
                            old(self).rollback.op_id.cseq as nat,
                            old(self).rollback.transactions@,
                            tx,
                        );
                    }
                    self.rollback.push_transaction(tx);
                    proof {
                        assert(committed_ops(self) =~= applied_ops(old(self)));
                        assert(applied_ops(self) =~= applied_ops(old(self)));
                    }
                },
                None => {
                    proof {
                        assert(applied_ops(self) =~= applied_ops(old(self)));
                    }
                },
            }
        } else {
            self.do_rollback();
        }
    }

    /// Applies one local operation. If no transaction is in flight, one is
    /// started (taking a fresh replica sequence). The operation gets the
    /// next logical clock and is applied to the CRDT; on success it joins
    /// the transaction. On failure every counter is rewound, so no causal
    /// gap is left: the clock, and — when this call started the
    /// transaction — the replica sequence and the transaction slot, are
    /// exactly as before.
    pub fn execute_local_operation(&mut self, op: Operation) -> (r: Result<
        ReturnType,
        DatatypeError,
    >)
        requires
            wf(old(self)),
            old(self).op_id.lamport < u64::MAX,
            old(self).op_id.cseq < u64::MAX,
            op.body matches OperationBody::CounterIncrease(b) ==> i64::MIN <= crdt_value(
                &old(self).crdt,
            ) + b.delta <= i64::MAX,
        ensures
            wf(final(self)),
            final(self).rollback == old(self).rollback,
            final(self).state == old(self).state,
            final(self).op_id.cuid@ == old(self).op_id.cuid@,
            final(self).op_id.sseq == old(self).op_id.sseq,
            committed_value(final(self)) == committed_value(old(self)),
            r is Ok == op_replayable(op),
            op_replayable(op) ==> {
                &&& crdt_value(&final(self).crdt) == crdt_value(&old(self).crdt) + op_delta(op)
                &&& final(self).op_id.lamport == old(self).op_id.lamport + 1
                &&& (final(self).transaction matches Some(t) && t.operations@ == active_ops(
                    old(self),
                ).push(
                    Operation {
                        lamport: (old(self).op_id.lamport + 1) as u64,
                        body: op.body,
                        at: op.at,
                    },
                ))
                &&& (old(self).transaction is None ==> final(self).op_id.cseq == old(
                    self,
                ).op_id.cseq + 1)
                &&& (old(self).transaction matches Some(t0) ==> (final(self).op_id.cseq == old(
                    self,
                ).op_id.cseq && (final(self).transaction matches Some(t) && t.tag == t0.tag
                    && t.cseq == t0.cseq)))
                &&& (op.body matches OperationBody::CounterIncrease(b) ==> r
                    == Result::<ReturnType, DatatypeError>::Ok(
                    ReturnType::Counter((crdt_value(&old(self).crdt) + b.delta) as i64),
                ))
                &&& (op.body matches OperationBody::Delay4Test(_) ==> r
                    == Result::<ReturnType, DatatypeError>::Ok(ReturnType::Nothing))
            },
            !op_replayable(op) ==> {
                &&& final(self).crdt == old(self).crdt
                &&& final(self).op_id.lamport == old(self).op_id.lamport
                &&& final(self).op_id.cseq == old(self).op_id.cseq
                &&& final(self).transaction == old(self).transaction
                &&& (r matches Result::Err(e) && e matches DatatypeError::FailedToExecuteOperation(
                    _,
                ))
            },
    {
        let is_new_tx = self.transaction.is_none();
        if is_new_tx {
            let tx = Transaction::new(&mut self.op_id);
            self.transaction = Some(tx);
        }
        let lamport = self.op_id.next_lamport();
        let mut op = op;
        op.set_lamport(lamport);
        let ghost mid = *self;
        let result = self.crdt.execute_local_operation(&op);
        let ok = result.is_ok();
        if ok {
            match &mut self.transaction {
                Some(tx) => {
                    tx.push_operation(op);
                },
                None => {},
            }
            proof {
                assert(active_ops(self) =~= active_ops(old(self)).push(op));
                assert(applied_ops(self) =~= applied_ops(old(self)).push(op));
                lemma_apply_push(snapshot_value(old(self)), applied_ops(old(self)), op);
                lemma_lamport_chain_push(
                    old(self).rollback.op_id.lamport as nat,
                    applied_ops(old(self)),
                    op,
                );
            }
        } else {
            if is_new_tx {
                self.op_id.prev_cseq();
                self.transaction = None;
            }
            self.op_id.prev_lamport();
            proof {
                assert(applied_ops(self) =~= applied_ops(old(self)));
            }
        }
        result
    }
}


/// For any committed history on a cell whose snapshot is the zero state
/// and which has no transaction in flight, the value is exactly the sum of
/// the committed deltas. Operations of a rolled-back transaction are not
/// part of the committed history, so they contribute nothing.
pub proof fn lemma_value_is_sum_of_committed_deltas(m: &MutableDatatype)
    requires
        wf(m),
        m.transaction is None,
        snapshot_value(m) == 0,
    ensures
        crdt_value(&m.crdt) == sum_deltas(committed_ops(m)),
{
    assert(applied_ops(m) =~= committed_ops(m));
    lemma_apply_is_sum(0, committed_ops(m));
}

/// The value always splits at the committed value: it differs from it by
/// exactly the sum of the in-flight transaction's deltas. A commit makes
/// all of those visible together, never partially, and a rollback removes
/// all of them together.
pub proof fn lemma_value_splits_at_committed(m: &MutableDatatype)
    requires
        wf(m),
    ensures
        crdt_value(&m.crdt) == committed_value(m) + sum_deltas(active_ops(m)),
{
    lemma_apply_concat(snapshot_value(m), committed_ops(m), active_ops(m));
    lemma_apply_is_sum(committed_value(m), active_ops(m));
}

/// An idle cell sits exactly at its committed value. Together with
/// `do_rollback`, which lands on the committed value, and
/// `execute_local_operation`, which never moves it, this is what makes a
/// failed transaction restore the value from before it began.
pub proof fn lemma_idle_value_is_committed(m: &MutableDatatype)
    requires
        wf(m),
        m.transaction is None,
    ensures
        crdt_value(&m.crdt) == committed_value(m),
{
    lemma_value_splits_at_committed(m);
}

/// Increments commute: two batches of operations move the value to the
/// same place in either order, whatever the interleaving chose.
pub proof fn lemma_apply_ops_commute(v: int, a: Seq<Operation>, b: Seq<Operation>)
    ensures
        apply_ops_value(v, a + b) == apply_ops_value(v, b + a),
{
    lemma_apply_is_sum(v, a + b);
    lemma_apply_is_sum(v, b + a);
    lemma_sum_concat(a, b);
    lemma_sum_concat(b, a);
}

/// The logical clocks of the operations applied since the snapshot are
/// strictly increasing in application order.
pub proof fn lemma_lamports_strictly_increasing(m: &MutableDatatype, i: int, j: int)
    requires
        wf(m),
        0 <= i < j < applied_ops(m).len(),
    ensures
        applied_ops(m)[i].lamport < applied_ops(m)[j].lamport,
{
    lemma_chain_pairwise(m.rollback.op_id.lamport as nat, applied_ops(m), i, j);
}

} // verus!
