//! Outbound capture buffer: a single slot that holds the bytes the engine
//! most recently asked to send.
//!
//! The slot is overwritten on every send and never grows past
//! [`MAX_PACKET_SIZE`]. It is not a queue: a second send replaces the first.

use vstd::prelude::*;
use vstd::slice::slice_subrange;

verus! {

/// The most bytes of one send that the slot keeps.
pub const MAX_PACKET_SIZE: usize = 2048;

/// The status with which the send hook tells the engine that the bytes were
/// taken.
pub const COAP_NO_ERROR: u8 = 0;

/// What the slot holds after a send of `bytes`: the bytes themselves, cut
/// after the first [`MAX_PACKET_SIZE`] of them.
pub open spec fn captured(bytes: Seq<u8>) -> Seq<u8> {
    if bytes.len() <= MAX_PACKET_SIZE {
        bytes
    } else {
        bytes.take(MAX_PACKET_SIZE as int)
    }
}

/// The single-slot store of the most recently sent bytes.
pub struct OutboundBuffer {
    bytes: Vec<u8>,
}

impl View for OutboundBuffer {
    type V = Seq<u8>;

    closed spec fn view(&self) -> Seq<u8> {
        self.bytes@
    }
}

impl OutboundBuffer {
    #[verifier::type_invariant]
    spec fn within_bound(self) -> bool {
        self.bytes@.len() <= MAX_PACKET_SIZE
    }

    /// The slot before any send: empty.
    pub fn new() -> (slot: OutboundBuffer)
        ensures
            slot@ == Seq::<u8>::empty(),
    {
        OutboundBuffer { bytes: Vec::new() }
    }

    /// Replaces the contents of the slot with `bytes`, cut to the bound.
    /// Nothing of the earlier contents remains.
    pub fn capture(&mut self, bytes: &[u8])
        ensures
            final(self)@ == captured(bytes@),
    {
        let length = if bytes.len() <= MAX_PACKET_SIZE {
            bytes.len()
        } else {
            MAX_PACKET_SIZE
        };
        let kept = slice_subrange(bytes, 0, length);
        let mut fresh: Vec<u8> = Vec::with_capacity(length);
        fresh.extend_from_slice(kept);
        assert(fresh@ =~= captured(bytes@));
        self.bytes = fresh;
    }

    /// A copy of what the slot holds. The slot itself is left as it is, so
    /// two snapshots with no send between them are equal.
    pub fn read_snapshot(&self) -> (snapshot: Vec<u8>)
        ensures
            snapshot@ == self@,
            snapshot@.len() <= MAX_PACKET_SIZE,
    {
        proof {
            use_type_invariant(self);
        }
        let snapshot = self.bytes.clone();
        assert(snapshot@ =~= self.bytes@);
        snapshot
    }
}

/// The send hook: records `buffer` as the most recent send and reports
/// success to the engine.
///
/// The session that the bytes were meant for plays no part: the slot is
/// shared by all sessions.
pub fn lwm2m_buffer_send(slot: &mut OutboundBuffer, buffer: &[u8]) -> (status: u8)
    ensures
        final(slot)@ == captured(buffer@),
        status == COAP_NO_ERROR,
{
    slot.capture(buffer);
    COAP_NO_ERROR
}

/// A send is recorded byte for byte up to the bound: the slot holds a prefix
/// of what was sent, as long as the send or as long as the bound, whichever
/// is less. A send within the bound is recorded whole.
pub proof fn lemma_captured_is_bounded_prefix(bytes: Seq<u8>)
    ensures
        captured(bytes).len() == if bytes.len() <= MAX_PACKET_SIZE {
            bytes.len()
        } else {
            MAX_PACKET_SIZE as nat
        },
        captured(bytes).is_prefix_of(bytes),
        bytes.len() <= MAX_PACKET_SIZE ==> captured(bytes) == bytes,
{
}

} // verus!
