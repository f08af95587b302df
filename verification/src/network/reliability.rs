//! Sequence numbers and acknowledgements over an unreliable transport.
use vstd::prelude::*;
use std::collections::HashMap;

verus! {

broadcast use vstd::std_specs::hash::group_hash_axioms;

#[verifier::external_type_specification]
#[verifier::external_body]
pub struct ExJsonValue(serde_json::Value);

/// A packet with its sequence number and the highest sequence acknowledged;
/// the payload is carried as it is.
#[derive(Debug)]
pub struct ReliablePacket {
    pub sequence: u64,
    pub ack: u64,
    pub payload: serde_json::Value,
}

/// Numbers outgoing packets and tracks those not yet acknowledged.
pub struct ReliabilityLayer {
    next_seq: u64,
    highest_ack: u64,
    pending: HashMap<u64, ReliablePacket>,
}

impl ReliabilityLayer {
    /// The sequence number that the next packet gets.
    pub closed spec fn next_seq_spec(&self) -> u64 {
        self.next_seq
    }

    /// The highest sequence number acknowledged so far (0 before any).
    pub closed spec fn highest_ack_spec(&self) -> u64 {
        self.highest_ack
    }

    /// The packets not yet acknowledged, by sequence number.
    pub closed spec fn pending_spec(&self) -> Map<u64, ReliablePacket> {
        self.pending@
    }

    /// A layer with no packet sent: numbering starts at 1.
    pub fn new() -> (r: Self)
        ensures
            r.next_seq_spec() == 1,
            r.highest_ack_spec() == 0,
            r.pending_spec() == Map::<u64, ReliablePacket>::empty(),
    {
        ReliabilityLayer { next_seq: 1, highest_ack: 0, pending: HashMap::new() }
    }

    /// Takes the next sequence number; numbers strictly increase.
    pub fn next_sequence(&mut self) -> (seq: u64)
        requires
            old(self).next_seq_spec() < u64::MAX,
        ensures
            seq == old(self).next_seq_spec(),
            final(self).next_seq_spec() == seq + 1,
            final(self).highest_ack_spec() == old(self).highest_ack_spec(),
            final(self).pending_spec() == old(self).pending_spec(),
    {
        let seq = self.next_seq;
        self.next_seq = self.next_seq + 1;
        seq
    }

    /// Records the acknowledgement of `seq`: it is no longer pending, and the
    /// highest acknowledgement is raised to it if lower.
    pub fn ack_packet(&mut self, seq: u64)
        ensures
            final(self).pending_spec() == old(self).pending_spec().remove(seq),
            final(self).highest_ack_spec() == (if seq > old(self).highest_ack_spec() { seq } else { old(self).highest_ack_spec() }),
            final(self).next_seq_spec() == old(self).next_seq_spec(),
    {
        self.pending.remove(&seq);
        if seq > self.highest_ack {
            self.highest_ack = seq;
        }
    }

    /// Tracks `packet` as pending under its sequence number, replacing any
    /// packet tracked under that number.
    pub fn track_pending(&mut self, packet: ReliablePacket)
        ensures
            final(self).pending_spec() == old(self).pending_spec().insert(packet.sequence, packet),
            final(self).highest_ack_spec() == old(self).highest_ack_spec(),
            final(self).next_seq_spec() == old(self).next_seq_spec(),
    {
        let seq = packet.sequence;
        self.pending.insert(seq, packet);
    }
}

impl Default for ReliabilityLayer {
    fn default() -> (r: Self)
        ensures
            r.next_seq_spec() == 1,
            r.highest_ack_spec() == 0,
            r.pending_spec() == Map::<u64, ReliablePacket>::empty(),
    {
        Self::new()
    }
}

/// A tracked packet stays pending until its acknowledgement, which removes it
/// and leaves the highest acknowledgement at least its sequence number.
pub proof fn lemma_ack_clears_tracked(pending: Map<u64, ReliablePacket>, packet: ReliablePacket, highest: u64)
    ensures
        pending.insert(packet.sequence, packet).contains_key(packet.sequence),
        !pending.insert(packet.sequence, packet).remove(packet.sequence).contains_key(packet.sequence),
        (if packet.sequence > highest { packet.sequence } else { highest }) >= packet.sequence,
{
}

} // verus!
