//! Causal identity of operations: a per-replica Lamport clock plus sequence
//! counters, ordered by clock first and replica id as tiebreak.
use core::cmp::Ordering;

use vstd::prelude::*;

use crate::decimal::{dec_digits, u64_to_dec};
use crate::uid::{lex_cmp_chars, Cuid, Uid};

verus! {

/// The causal cursor of one replica: `lamport` is the logical clock, `cuid`
/// the replica id, `cseq` the replica-local transaction sequence, and `sseq`
/// the coordinator-assigned sequence (zero until acknowledged).
#[derive(Debug)]
pub struct OperationId {
    pub lamport: u64,
    pub cuid: Cuid,
    pub cseq: u64,
    pub sseq: u64,
}

/// How two causal identities compare: by logical clock first, then by
/// replica id.
pub open spec fn op_id_order(a: &OperationId, b: &OperationId) -> Ordering {
    if a.lamport > b.lamport {
        Ordering::Greater
    } else if a.lamport < b.lamport {
        Ordering::Less
    } else {
        lex_cmp_chars(a.cuid@, b.cuid@)
    }
}

impl OperationId {
    /// A fresh cursor for the given replica: all counters at zero.
    pub fn new_with_cuid(cuid: &Cuid) -> (r: Self)
        ensures
            r.lamport == 0,
            r.cuid@ == cuid@,
            r.cseq == 0,
            r.sseq == 0,
    {
        Self { lamport: 0, cuid: cuid.clone(), cseq: 0, sseq: 0 }
    }

    /// A fresh cursor for the nil replica id.
    pub fn new() -> (r: Self)
        ensures
            r.lamport == 0,
            r.cuid@ == "0000000000000000"@,
            r.cseq == 0,
            r.sseq == 0,
    {
        Self { lamport: 0, cuid: Uid::new_nil(), cseq: 0, sseq: 0 }
    }

    /// Advances the logical clock by one and returns it.
    pub fn next_lamport(&mut self) -> (r: u64)
        requires
            old(self).lamport < u64::MAX,
        ensures
            final(self).lamport == old(self).lamport + 1,
            r == final(self).lamport,
            final(self).cuid@ == old(self).cuid@,
            final(self).cseq == old(self).cseq,
            final(self).sseq == old(self).sseq,
    {
        self.lamport = self.lamport + 1;
        self.lamport
    }

    /// Rewinds the logical clock by one, flooring at zero, and returns it.
    pub fn prev_lamport(&mut self) -> (r: u64)
        ensures
            final(self).lamport == if old(self).lamport > 0 {
                old(self).lamport - 1
            } else {
                0
            },
            r == final(self).lamport,
            final(self).cuid@ == old(self).cuid@,
            final(self).cseq == old(self).cseq,
            final(self).sseq == old(self).sseq,
    {
        if self.lamport > 0 {
            self.lamport = self.lamport - 1;
        }
        self.lamport
    }

    /// Advances the replica-local sequence by one and returns it.
    pub fn next_cseq(&mut self) -> (r: u64)
        requires
            old(self).cseq < u64::MAX,
        ensures
            final(self).cseq == old(self).cseq + 1,
            r == final(self).cseq,
            final(self).cuid@ == old(self).cuid@,
            final(self).lamport == old(self).lamport,
            final(self).sseq == old(self).sseq,
    {
        self.cseq = self.cseq + 1;
        self.cseq
    }

    /// Rewinds the replica-local sequence by one, flooring at zero, and
    /// returns it.
    pub fn prev_cseq(&mut self) -> (r: u64)
        ensures
            final(self).cseq == if old(self).cseq > 0 {
                old(self).cseq - 1
            } else {
                0
            },
            r == final(self).cseq,
            final(self).cuid@ == old(self).cuid@,
            final(self).lamport == old(self).lamport,
            final(self).sseq == old(self).sseq,
    {
        if self.cseq > 0 {
            self.cseq = self.cseq - 1;
        }
        self.cseq
    }

    /// Merges another identity into this one: the logical clock takes the
    /// maximum always, the replica-local sequence only when the replica ids
    /// match.
    pub fn sync(&mut self, other: &Self)
        ensures
            final(self).lamport == if other.lamport > old(self).lamport {
                other.lamport
            } else {
                old(self).lamport
            },
            final(self).cseq == if other.cuid@ == old(self).cuid@ && other.cseq > old(self).cseq {
                other.cseq
            } else {
                old(self).cseq
            },
            final(self).cuid@ == old(self).cuid@,
            final(self).sseq == old(self).sseq,
    {
        if other.lamport > self.lamport {
            self.lamport = other.lamport;
        }
        if other.cuid == self.cuid {
            if other.cseq > self.cseq {
                self.cseq = other.cseq;
            }
        }
    }

    /// The display form `lamport:cuid:cseq`.
    pub fn to_string(&self) -> (r: String)
        ensures
            r@ == dec_digits(self.lamport as nat) + ":"@ + self.cuid@ + ":"@ + dec_digits(
                self.cseq as nat,
            ),
    {
        let mut s = u64_to_dec(self.lamport);
        s.append(":");
        s.append(self.cuid.as_str());
        s.append(":");
        let t = u64_to_dec(self.cseq);
        s.append(t.as_str());
        s
    }

    /// The debug form matches the display form.
    pub fn debug_string(&self) -> (r: String)
        ensures
            r@ == dec_digits(self.lamport as nat) + ":"@ + self.cuid@ + ":"@ + dec_digits(
                self.cseq as nat,
            ),
    {
        self.to_string()
    }
}

impl Clone for OperationId {
    fn clone(&self) -> (r: Self)
        ensures
            r.lamport == self.lamport,
            r.cuid@ == self.cuid@,
            r.cseq == self.cseq,
            r.sseq == self.sseq,
    {
        Self { lamport: self.lamport, cuid: self.cuid.clone(), cseq: self.cseq, sseq: self.sseq }
    }
}

impl PartialEq for OperationId {
    fn eq(&self, other: &Self) -> (r: bool)
        ensures
            r == (self.lamport == other.lamport && self.cuid@ == other.cuid@ && self.cseq
                == other.cseq && self.sseq == other.sseq),
    {
        self.lamport == other.lamport && self.cuid == other.cuid && self.cseq == other.cseq
            && self.sseq == other.sseq
    }
}

impl vstd::std_specs::cmp::PartialEqSpecImpl for OperationId {
    open spec fn obeys_eq_spec() -> bool {
        true
    }

    open spec fn eq_spec(&self, other: &Self) -> bool {
        self.lamport == other.lamport && self.cuid@ == other.cuid@ && self.cseq == other.cseq
            && self.sseq == other.sseq
    }
}

impl PartialOrd for OperationId {
    fn partial_cmp(&self, other: &Self) -> (r: Option<Ordering>)
        ensures
            r == Some(op_id_order(self, other)),
    {
        if self.lamport > other.lamport {
            Some(Ordering::Greater)
        } else if self.lamport < other.lamport {
            Some(Ordering::Less)
        } else {
            Some(self.cuid.compare(&other.cuid))
        }
    }
}

impl vstd::std_specs::cmp::PartialOrdSpecImpl for OperationId {
    open spec fn obeys_partial_cmp_spec() -> bool {
        true
    }

    open spec fn partial_cmp_spec(&self, other: &Self) -> Option<Ordering> {
        Some(op_id_order(self, other))
    }
}

impl Default for OperationId {
    /// The default cursor is the fresh nil-replica cursor.
    fn default() -> (r: Self)
        ensures
            r.lamport == 0,
            r.cuid@ == "0000000000000000"@,
            r.cseq == 0,
            r.sseq == 0,
    {
        OperationId::new()
    }
}

} // verus!
