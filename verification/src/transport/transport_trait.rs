//! What a transport offers: connecting, and sending and receiving packets.
use vstd::prelude::*;
use crate::error::MessengerError;
use crate::protocol::packet::Packet;

verus! {

/// A way to exchange packets with a peer. A transport never answers
/// `NoTransport`: that refusal belongs to the manager that holds transports.
pub trait Transport {
    /// The packets the transport has accepted for sending, oldest first.
    spec fn sent(&self) -> Seq<Packet>;

    /// The received packets not taken yet, oldest first.
    spec fn inbox(&self) -> Seq<Packet>;

    /// Opens the transport.
    fn connect(&mut self) -> Result<(), MessengerError>;

    /// Closes the transport.
    fn disconnect(&mut self) -> Result<(), MessengerError>;

    /// Sends a packet to the peer: once accepted it follows the packets sent
    /// before; a refused packet leaves them as they were.
    fn send(&mut self, packet: Packet) -> (res: Result<(), MessengerError>)
        ensures
            res != Err::<(), MessengerError>(MessengerError::NoTransport),
            res is Ok ==> final(self).sent() == old(self).sent().push(packet),
            res is Err ==> final(self).sent() == old(self).sent(),
    ;

    /// Takes the oldest received packet, if any; without one nothing is taken.
    fn receive(&mut self) -> (res: Result<Option<Packet>, MessengerError>)
        ensures
            res != Err::<Option<Packet>, MessengerError>(MessengerError::NoTransport),
            res matches Ok(Some(p)) ==> old(self).inbox().len() > 0 && p == old(self).inbox()[0]
                && final(self).inbox() == old(self).inbox().drop_first(),
            !(res matches Ok(Some(_))) ==> final(self).inbox() == old(self).inbox(),
    ;
}

} // verus!
