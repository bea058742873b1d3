//! A transaction: an ordered batch of operations created by one replica,
//! append-only until it is committed or discarded by rollback.
use vstd::prelude::*;

use crate::decimal::dec_digits;
use crate::decimal::u64_to_dec;
use crate::operation::{op_display, MemoryMeasurable, Operation};
use crate::operation_id::OperationId;
use crate::uid::Cuid;

verus! {

/// The fixed footprint of a transaction before its tag and operations:
/// the operations vector, the replica id, the optional tag, the two
/// sequence numbers and the event flag.
pub const TRANSACTION_CONSTANT_SIZE: usize = 24 + 16 + 24 + 8 + 8 + 1;

/// An ordered batch of operations from one replica. `cseq` is the
/// replica-local sequence assigned at creation; `sseq` stays zero until a
/// coordinator acknowledges the transaction.
pub struct Transaction {
    pub cuid: Cuid,
    pub cseq: u64,
    pub sseq: u64,
    pub tag: Option<String>,
    pub event: bool,
    pub operations: Vec<Operation>,
}

/// The combined footprint of a sequence of operations.
pub open spec fn ops_total_size(ops: Seq<Operation>) -> nat
    decreases ops.len(),
{
    if ops.len() == 0 {
        0
    } else {
        ops_total_size(ops.drop_last()) + ops.last().spec_size()
    }
}

proof fn lemma_ops_size_take_succ(ops: Seq<Operation>, i: int)
    requires
        0 <= i < ops.len(),
    ensures
        ops_total_size(ops.take(i + 1)) == ops_total_size(ops.take(i)) + ops[i].spec_size(),
{
    assert(ops.take(i + 1).drop_last() =~= ops.take(i));
    assert(ops.take(i + 1).last() == ops[i]);
}

proof fn lemma_ops_size_prefix_bound(ops: Seq<Operation>, i: int)
    requires
        0 <= i <= ops.len(),
    ensures
        ops_total_size(ops.take(i)) <= ops_total_size(ops),
    decreases ops.len() - i,
{
    if i == ops.len() {
        assert(ops.take(i) =~= ops);
    } else {
        lemma_ops_size_prefix_bound(ops, i + 1);
        lemma_ops_size_take_succ(ops, i);
    }
}

/// The display form of a transaction's tag.
pub open spec fn tx_tag_part(tag: Option<Seq<char>>) -> Seq<char> {
    match tag {
        Some(t) => "tag:"@ + t,
        None => Seq::<char>::empty(),
    }
}

/// The display form of a transaction's event flag.
pub open spec fn tx_event_part(event: bool) -> Seq<char> {
    if event {
        " event "@
    } else {
        " "@
    }
}

/// The display form of a transaction's operation range: empty, one
/// operation, or the first and last.
pub open spec fn tx_ops_part(ops: Seq<Operation>) -> Seq<char> {
    if ops.len() == 0 {
        "[]"@
    } else if ops.len() == 1 {
        "["@ + op_display(ops[0]) + "]"@
    } else {
        "["@ + op_display(ops[0]) + "-"@ + op_display(ops.last()) + "]"@
    }
}

/// The display form of a transaction.
pub open spec fn tx_display(t: &Transaction) -> Seq<char> {
    "TX("@ + tx_tag_part(match t.tag {
        Some(s) => Some(s@),
        None => None,
    }) + tx_event_part(t.event) + t.cuid@ + ":"@ + dec_digits(t.cseq as nat) + ":"@ + dec_digits(
        t.sseq as nat,
    ) + ":"@ + tx_ops_part(t.operations@) + ")"@
}

impl Transaction {
    /// The replica that created this transaction.
    pub fn cuid(&self) -> (r: &Cuid)
        ensures
            r@ == self.cuid@,
    {
        &self.cuid
    }

    /// A new empty transaction for the replica behind `op_id`, taking the
    /// next replica-local sequence number from it.
    pub fn new(op_id: &mut OperationId) -> (r: Self)
        requires
            old(op_id).cseq < u64::MAX,
        ensures
            final(op_id).cseq == old(op_id).cseq + 1,
            final(op_id).lamport == old(op_id).lamport,
            final(op_id).cuid@ == old(op_id).cuid@,
            final(op_id).sseq == old(op_id).sseq,
            r.cuid@ == old(op_id).cuid@,
            r.cseq == old(op_id).cseq + 1,
            r.sseq == 0,
            r.tag is None,
            !r.event,
            r.operations@.len() == 0,
    {
        let cuid = op_id.cuid.clone();
        let cseq = op_id.next_cseq();
        Self { cuid, cseq, sseq: 0, tag: None, event: false, operations: Vec::new() }
    }

    /// The causal identity this transaction was created under.
    pub fn get_op_id(&self) -> (r: OperationId)
        ensures
            r.lamport == 0,
            r.cuid@ == self.cuid@,
            r.cseq == self.cseq,
            r.sseq == 0,
    {
        let mut op_id = OperationId::new_with_cuid(&self.cuid);
        op_id.cseq = self.cseq;
        op_id
    }

    /// Attaches or clears the human tag.
    pub fn set_tag(&mut self, tag: Option<String>)
        ensures
            final(self).tag == tag,
            final(self).cuid@ == old(self).cuid@,
            final(self).cseq == old(self).cseq,
            final(self).sseq == old(self).sseq,
            final(self).event == old(self).event,
            final(self).operations@ == old(self).operations@,
    {
        self.tag = tag;
    }

    /// Sets the event flag.
    pub fn set_event(&mut self, event: bool)
        ensures
            final(self).event == event,
            final(self).cuid@ == old(self).cuid@,
            final(self).cseq == old(self).cseq,
            final(self).sseq == old(self).sseq,
            final(self).tag == old(self).tag,
            final(self).operations@ == old(self).operations@,
    {
        self.event = event;
    }

    /// Appends one operation; the batch keeps submission order.
    pub fn push_operation(&mut self, op: Operation)
        ensures
            final(self).operations@ == old(self).operations@.push(op),
            final(self).cuid@ == old(self).cuid@,
            final(self).cseq == old(self).cseq,
            final(self).sseq == old(self).sseq,
            final(self).tag == old(self).tag,
            final(self).event == old(self).event,
    {
        self.operations.push(op);
    }

    /// The recorded operations, in submission order.
    pub fn iter(&self) -> (r: &Vec<Operation>)
        ensures
            r@ == self.operations@,
    {
        &self.operations
    }

    /// The display form.
    #[verifier::rlimit(60)]
    pub fn to_string(&self) -> (r: String)
        ensures
            r@ == tx_display(self),
    {
        let mut s = String::new();
        s.append("TX(");
        match &self.tag {
            Some(t) => {
                s.append("tag:");
                s.append(t.as_str());
            },
            None => {},
        }
        if self.event {
            s.append(" event ");
        } else {
            s.append(" ");
        }
        s.append(self.cuid.as_str());
        s.append(":");
        let c = u64_to_dec(self.cseq);
        s.append(c.as_str());
        s.append(":");
        let q = u64_to_dec(self.sseq);
        s.append(q.as_str());
        s.append(":");
        let n = self.operations.len();
        if n == 0 {
            s.append("[]");
        } else if n == 1 {
            s.append("[");
            let f = self.operations[0].to_string();
            s.append(f.as_str());
            s.append("]");
        } else {
            s.append("[");
            let f = self.operations[0].to_string();
            s.append(f.as_str());
            s.append("-");
            let l = self.operations[n - 1].to_string();
            s.append(l.as_str());
            s.append("]");
        }
        s.append(")");
        assert(s@ =~= tx_display(self));
        s
    }

    /// The debug form matches the display form.
    pub fn debug_string(&self) -> (r: String)
        ensures
            r@ == tx_display(self),
    {
        self.to_string()
    }
}

impl MemoryMeasurable for Transaction {
    open spec fn spec_size(&self) -> nat {
        (TRANSACTION_CONSTANT_SIZE + (match self.tag {
            Some(t) => t@.len(),
            None => 0nat,
        }) + ops_total_size(self.operations@)) as nat
    }

    fn size(&self) -> (r: usize)
        ensures
            r == self.spec_size(),
    {
        let tag_size: usize = match &self.tag {
            Some(t) => t.as_str().unicode_len(),
            None => 0,
        };
        let mut ops_size: usize = 0;
        let mut i: usize = 0;
        let n = self.operations.len();
        proof {
            assert(self.operations@.take(0) =~= Seq::<Operation>::empty());
        }
        while i < n
            invariant
                n == self.operations@.len(),
                i <= n,
                ops_size == ops_total_size(self.operations@.take(i as int)),
                ops_total_size(self.operations@) + TRANSACTION_CONSTANT_SIZE + tag_size
                    <= usize::MAX,
            decreases n - i,
        {
            proof {
                lemma_ops_size_take_succ(self.operations@, i as int);
                lemma_ops_size_prefix_bound(self.operations@, i + 1);
            }
            ops_size = ops_size + self.operations[i].size();
            i += 1;
        }
        proof {
            assert(self.operations@.take(n as int) =~= self.operations@);
        }
        TRANSACTION_CONSTANT_SIZE + tag_size + ops_size
    }
}

} // verus!
