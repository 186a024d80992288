//! The diagnostic error queue: a FIFO of packed cause codes that the engine
//! accumulates as a side effect of failing calls.
//!
//! The engine keeps one such queue per execution context. Here it is modeled
//! as explicit, injectable state rather than a hidden global: whatever
//! populates it (the engine, or a fake standing in for it) appends records
//! with `push`, and callers drain, inspect or discard them through the same
//! operations the engine offers. The earliest-queued record is the most
//! specific cause.

use vstd::prelude::*;

verus! {

/// A packed diagnostic record: the originating library in the top byte, the
/// reason in the low twelve bits. A packed value of zero means "no record"
/// and never stands in the queue.
#[derive(Clone, Copy, Debug, PartialEq, Eq, Structural)]
pub struct SslError {
    pub packed: u32,
}

/// The library component of a packed record.
pub open spec fn spec_lib(packed: u32) -> u32 {
    packed >> 24
}

/// The reason component of a packed record.
pub open spec fn spec_reason(packed: u32) -> u32 {
    packed & 0xfff
}

/// How the engine packs a library and a reason into one record.
pub open spec fn spec_pack(lib: u32, reason: u32) -> u32 {
    ((lib & 0xff) << 24) | (reason & 0xfff)
}

/// Packing then unpacking gives the components back, for every library code
/// that fits in a byte and every reason that fits in twelve bits.
pub proof fn lemma_pack_roundtrip(lib: u32, reason: u32)
    requires
        lib < 0x100,
        reason < 0x1000,
    ensures
        spec_lib(spec_pack(lib, reason)) == lib,
        spec_reason(spec_pack(lib, reason)) == reason,
{
    assert(lib < 0x100 && reason < 0x1000 ==> (((lib & 0xff) << 24) | (reason & 0xfff)) >> 24
        == lib) by (bit_vector);
    assert(lib < 0x100 && reason < 0x1000 ==> ((((lib & 0xff) << 24) | (reason & 0xfff)) & 0xfff)
        == reason) by (bit_vector);
}

impl SslError {
    /// Build a record the way the engine packs one.
    pub fn pack(lib: u32, reason: u32) -> (r: SslError)
        ensures
            r.packed == spec_pack(lib, reason),
    {
        SslError { packed: ((lib & 0xff) << 24) | (reason & 0xfff) }
    }

    /// The numeric code of the library that generated the error.
    pub fn lib(&self) -> (l: u32)
        ensures
            l == spec_lib(self.packed),
    {
        self.packed >> 24
    }

    /// The numeric code of the reason for the error.
    pub fn reason(&self) -> (r: u32)
        ensures
            r == spec_reason(self.packed),
    {
        self.packed & 0xfff
    }
}

/// The per-context FIFO of diagnostic records. Index zero is the oldest,
/// most specific record.
pub struct ErrorQueue {
    records: Vec<u32>,
}

impl View for ErrorQueue {
    type V = Seq<u32>;

    closed spec fn view(&self) -> Seq<u32> {
        self.records@
    }
}

impl ErrorQueue {
    /// All queued records are nonzero: zero is the engine's "no record"
    /// sentinel and never enters the queue.
    pub open spec fn wf(&self) -> bool {
        forall|i: int| 0 <= i < self@.len() ==> self@[i] != 0
    }

    /// An empty queue.
    pub fn new() -> (q: ErrorQueue)
        ensures
            q@ == Seq::<u32>::empty(),
            q.wf(),
    {
        ErrorQueue { records: Vec::new() }
    }

    /// Append a record, as the engine does when a call fails deep in its
    /// layers.
    pub fn push(&mut self, packed: u32)
        requires
            packed != 0,
        ensures
            final(self)@ == old(self)@.push(packed),
            old(self).wf() ==> final(self).wf(),
    {
        self.records.push(packed);
        proof {
            if old(self).wf() {
                assert forall|i: int| 0 <= i < self@.len() implies self@[i] != 0 by {
                    if i < old(self)@.len() {
                        assert(old(self)@[i] != 0);
                    }
                }
            }
        }
    }

    /// Pop and return the oldest record, or nothing if the queue is empty.
    pub fn get(&mut self) -> (r: Option<SslError>)
        ensures
            old(self)@.len() == 0 ==> r is None && final(self)@ == old(self)@,
            old(self)@.len() > 0 ==> r == Some(SslError { packed: old(self)@[0] })
                && final(self)@ == old(self)@.subrange(1, old(self)@.len() as int),
            old(self).wf() ==> final(self).wf(),
    {
        if self.records.len() == 0 {
            None
        } else {
            let packed = self.records.remove(0);
            Some(SslError { packed })
        }
    }

    /// Like `get`, but leaves the record in the queue.
    pub fn peek(&self) -> (r: Option<SslError>)
        ensures
            self@.len() == 0 ==> r is None,
            self@.len() > 0 ==> r == Some(SslError { packed: self@[0] }),
    {
        if self.records.len() == 0 {
            None
        } else {
            Some(SslError { packed: self.records[0] })
        }
    }

    /// Discard every queued record for this context.
    pub fn clear(&mut self)
        ensures
            final(self)@ == Seq::<u32>::empty(),
            final(self).wf(),
    {
        self.records.clear();
    }

    /// How many records are queued.
    pub fn len(&self) -> (n: usize)
        ensures
            n == self@.len(),
    {
        self.records.len()
    }
}

} // verus!
