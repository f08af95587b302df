//! An in-memory transport for tests and local simulation.
use vstd::prelude::*;
use std::collections::VecDeque;
use crate::error::MessengerError;
use crate::protocol::packet::Packet;
use crate::transport::transport_trait::Transport;

verus! {

/// A transport that keeps sent packets and hands out simulated incoming ones
/// in arrival order.
#[derive(Debug)]
pub struct MockTransport {
    connected: bool,
    pub incoming: VecDeque<Packet>,
    pub outgoing: Vec<Packet>,
}

impl MockTransport {
    /// Whether the transport is open.
    pub closed spec fn connected_spec(&self) -> bool {
        self.connected
    }

    /// The simulated packets not received yet, oldest first.
    pub closed spec fn incoming_spec(&self) -> Seq<Packet> {
        self.incoming@
    }

    /// The packets sent, in order.
    pub closed spec fn outgoing_spec(&self) -> Seq<Packet> {
        self.outgoing@
    }

    /// A closed transport with no packet in either direction.
    pub fn new() -> (t: Self)
        ensures
            !t.connected_spec(),
            t.incoming_spec().len() == 0,
            t.outgoing_spec().len() == 0,
    {
        MockTransport { connected: false, incoming: VecDeque::new(), outgoing: Vec::new() }
    }

    /// Queues `packet` as if it had arrived.
    pub fn simulate_incoming(&mut self, packet: Packet)
        ensures
            final(self).incoming_spec() == old(self).incoming_spec().push(packet),
            final(self).outgoing_spec() == old(self).outgoing_spec(),
            final(self).connected_spec() == old(self).connected_spec(),
    {
        self.incoming.push_back(packet);
    }

    /// Whether the transport is open.
    pub fn is_connected(&self) -> (b: bool)
        ensures
            b == self.connected_spec(),
    {
        self.connected
    }
}

impl Default for MockTransport {
    fn default() -> (t: Self)
        ensures
            !t.connected_spec(),
            t.incoming_spec().len() == 0,
            t.outgoing_spec().len() == 0,
    {
        Self::new()
    }
}

impl Transport for MockTransport {
    open spec fn sent(&self) -> Seq<Packet> {
        self.outgoing_spec()
    }

    open spec fn inbox(&self) -> Seq<Packet> {
        self.incoming_spec()
    }

    /// Opens the transport; it never fails.
    fn connect(&mut self) -> (res: Result<(), MessengerError>)
        ensures
            res is Ok,
            final(self).connected_spec(),
            final(self).incoming_spec() == old(self).incoming_spec(),
            final(self).outgoing_spec() == old(self).outgoing_spec(),
    {
        self.connected = true;
        Ok(())
    }

    /// Closes the transport; it never fails.
    fn disconnect(&mut self) -> (res: Result<(), MessengerError>)
        ensures
            res is Ok,
            !final(self).connected_spec(),
            final(self).incoming_spec() == old(self).incoming_spec(),
            final(self).outgoing_spec() == old(self).outgoing_spec(),
    {
        self.connected = false;
        Ok(())
    }

    /// Keeps the packet as sent; refused while the transport is closed.
    fn send(&mut self, packet: Packet) -> (res: Result<(), MessengerError>)
        ensures
            !old(self).connected_spec() ==> res == Err::<(), MessengerError>(MessengerError::TransportNotConnected)
                && final(self).outgoing_spec() == old(self).outgoing_spec(),
            old(self).connected_spec() ==> res is Ok && final(self).outgoing_spec() == old(self).outgoing_spec().push(packet),
            final(self).incoming_spec() == old(self).incoming_spec(),
            final(self).connected_spec() == old(self).connected_spec(),
    {
        if !self.connected {
            return Err(MessengerError::TransportNotConnected);
        }
        self.outgoing.push(packet);
        Ok(())
    }

    /// The oldest simulated packet not received yet; refused while closed.
    fn receive(&mut self) -> (res: Result<Option<Packet>, MessengerError>)
        ensures
            !old(self).connected_spec() ==> res == Err::<Option<Packet>, MessengerError>(MessengerError::TransportNotConnected)
                && final(self).incoming_spec() == old(self).incoming_spec(),
            old(self).connected_spec() && old(self).incoming_spec().len() == 0 ==> res == Ok::<Option<Packet>, MessengerError>(None)
                && final(self).incoming_spec() == old(self).incoming_spec(),
            old(self).connected_spec() && old(self).incoming_spec().len() > 0 ==> res == Ok::<Option<Packet>, MessengerError>(Some(old(self).incoming_spec()[0]))
                && final(self).incoming_spec() == old(self).incoming_spec().drop_first(),
            final(self).outgoing_spec() == old(self).outgoing_spec(),
            final(self).connected_spec() == old(self).connected_spec(),
    {
        if !self.connected {
            return Err(MessengerError::TransportNotConnected);
        }
        Ok(self.incoming.pop_front())
    }
}

/// Incoming packets leave in the order they arrived: after `p` is queued
/// behind `q`, receiving gives the head of `q`, or `p` when `q` is empty, and
/// leaves the rest of the queue followed by `p`.
pub proof fn lemma_incoming_fifo(q: Seq<Packet>, p: Packet)
    ensures
        q.push(p)[0] == (if q.len() == 0 { p } else { q[0] }),
        q.push(p).drop_first() == (if q.len() == 0 { Seq::<Packet>::empty() } else { q.drop_first().push(p) }),
{
    if q.len() == 0 {
        assert(q.push(p).drop_first() =~= Seq::<Packet>::empty());
    } else {
        assert(q.push(p).drop_first() =~= q.drop_first().push(p));
    }
}

} // verus!
