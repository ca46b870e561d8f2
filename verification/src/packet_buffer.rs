//! The virtual interface's reusable packet buffer.
//!
//! The interface owns one MTU-sized buffer. A read from the device fills
//! its prefix with one packet and records the packet's length; the caller
//! then takes a copy of exactly that prefix. The buffer is reused across
//! reads, so stale bytes of earlier packets stay behind the recorded
//! length; the round-trip law below shows they can never leak into the
//! packet handed out.

use vstd::prelude::*;

use crate::MTU;

verus! {

/// The buffer contents after one packet `p` is written into the prefix of
/// `buf`: the packet's bytes, then the untouched tail of the old contents.
pub open spec fn stored_after_write(buf: Seq<u8>, p: Seq<u8>) -> Seq<u8>
    recommends
        p.len() <= buf.len(),
{
    Seq::new(buf.len(), |i: int| if i < p.len() { p[i] } else { buf[i] })
}

/// The packet a read hands out of buffer contents `buf` with recorded
/// length `n`: the first `n` bytes.
pub open spec fn read_result(buf: Seq<u8>, n: int) -> Seq<u8>
    recommends
        0 <= n <= buf.len(),
{
    buf.take(n)
}

/// One MTU-sized reusable packet buffer and the length of the packet it
/// currently holds.
pub struct PacketBuffer {
    buf: Vec<u8>,
    len: usize,
}

/// Abstract state of a packet buffer: the raw buffer contents and the
/// recorded packet length.
pub struct PacketBufferState {
    /// All `MTU` bytes of the backing buffer.
    pub buf: Seq<u8>,
    /// How many leading bytes belong to the packet last stored.
    pub len: int,
}

impl View for PacketBuffer {
    type V = PacketBufferState;

    closed spec fn view(&self) -> PacketBufferState {
        PacketBufferState { buf: self.buf@, len: self.len as int }
    }
}

impl PacketBuffer {
    /// The buffer's backing store always spans `MTU` bytes and the recorded
    /// length never exceeds it.
    pub open spec fn wf(&self) -> bool {
        self@.buf.len() == MTU && 0 <= self@.len <= MTU
    }

    /// The packet the buffer currently holds.
    pub open spec fn packet(&self) -> Seq<u8> {
        read_result(self@.buf, self@.len)
    }

    /// A fresh zeroed buffer holding an empty packet.
    pub fn new() -> (r: PacketBuffer)
        ensures
            r.wf(),
            r.packet() == Seq::<u8>::empty(),
    {
        let mut buf: Vec<u8> = Vec::new();
        let mut i: usize = 0;
        while i < MTU
            invariant
                i <= MTU,
                buf@.len() == i,
            decreases MTU - i,
        {
            buf.push(0);
            i += 1;
        }
        let r = PacketBuffer { buf, len: 0 };
        assert(r.packet() =~= Seq::<u8>::empty());
        r
    }

    /// Stores one packet: writes `p` over the buffer's prefix and records
    /// its length, as a device read does when a packet arrives.
    pub fn store(&mut self, p: &[u8])
        requires
            old(self).wf(),
            p@.len() <= MTU,
        ensures
            final(self).wf(),
            final(self)@.buf == stored_after_write(old(self)@.buf, p@),
            final(self)@.len == p@.len(),
    {
        let mut i: usize = 0;
        while i < p.len()
            invariant
                self@.buf.len() == MTU,
                p@.len() <= MTU,
                i <= p@.len(),
                forall|k: int| 0 <= k < i ==> self@.buf[k] == p@[k],
                forall|k: int| i <= k < MTU ==> self@.buf[k] == old(self)@.buf[k],
            decreases p@.len() - i,
        {
            self.buf.set(i, p[i]);
            i += 1;
        }
        self.len = p.len();
        assert(self@.buf =~= stored_after_write(old(self)@.buf, p@));
    }

    /// Takes a copy of exactly the packet the buffer holds: the recorded
    /// number of leading bytes, stale tail excluded.
    pub fn take_packet(&self) -> (r: Vec<u8>)
        requires
            self.wf(),
        ensures
            r@ == self.packet(),
    {
        let mut out: Vec<u8> = Vec::new();
        let mut i: usize = 0;
        while i < self.len
            invariant
                self.wf(),
                i <= self@.len,
                out@ =~= self@.buf.take(i as int),
            decreases self.len - i,
        {
            out.push(self.buf[i]);
            i += 1;
        }
        assert(out@ =~= self.packet());
        out
    }
}

/// Round trip through the interface buffer: any packet of at most `MTU`
/// bytes written into the buffer and then read back comes out exactly as it
/// went in, whatever the buffer held before.
pub proof fn lemma_packet_round_trip(buf: Seq<u8>, p: Seq<u8>)
    requires
        buf.len() == MTU,
        p.len() <= MTU,
    ensures
        read_result(stored_after_write(buf, p), p.len() as int) == p,
{
    assert(read_result(stored_after_write(buf, p), p.len() as int) =~= p);
}

} // verus!
