//! Holding the transport in use.
use vstd::prelude::*;
use crate::error::MessengerError;
use crate::protocol::packet::Packet;
use crate::transport::transport_trait::Transport;

verus! {

/// Holds at most one transport and routes packets through it.
pub struct TransportManager<T: Transport> {
    transport: Option<T>,
}

impl<T: Transport> TransportManager<T> {
    /// Whether a transport is registered.
    pub closed spec fn has_transport(&self) -> bool {
        self.transport is Some
    }

    /// The registered transport, if any.
    pub closed spec fn registered(&self) -> Option<T> {
        self.transport
    }

    /// A manager with no transport.
    pub fn new() -> (m: Self)
        ensures
            !m.has_transport(),
            m.registered() is None,
    {
        TransportManager { transport: None }
    }

    /// Registers `transport`, replacing any earlier one.
    pub fn register_transport(&mut self, transport: T)
        ensures
            final(self).has_transport(),
            final(self).registered() == Some(transport),
    {
        self.transport = Some(transport);
    }

    /// The registered transport; refused when there is none.
    pub fn get_transport(&mut self) -> (res: Result<&mut T, MessengerError>)
        ensures
            old(self).has_transport() <==> res is Ok,
            !old(self).has_transport() ==> res == Err::<&mut T, MessengerError>(MessengerError::NoTransport),
            res matches Ok(t) ==> *t == old(self).registered()->Some_0,
    {
        match &mut self.transport {
            Some(t) => Ok(t),
            None => Err(MessengerError::NoTransport),
        }
    }

    /// Sends `packet` through the registered transport, and answers what the
    /// transport answered; refused when there is none.
    pub fn send_packet(&mut self, packet: Packet) -> (res: Result<(), MessengerError>)
        ensures
            !old(self).has_transport() ==> res == Err::<(), MessengerError>(MessengerError::NoTransport),
            old(self).has_transport() ==> res != Err::<(), MessengerError>(MessengerError::NoTransport),
            final(self).has_transport() == old(self).has_transport(),
            !old(self).has_transport() ==> final(self).registered() == old(self).registered(),
            old(self).has_transport() && res is Ok ==> final(self).registered()->Some_0.sent()
                == old(self).registered()->Some_0.sent().push(packet),
            old(self).has_transport() && res is Err ==> final(self).registered()->Some_0.sent()
                == old(self).registered()->Some_0.sent(),
    {
        match &mut self.transport {
            Some(t) => t.send(packet),
            None => Err(MessengerError::NoTransport),
        }
    }

    /// Receives through the registered transport, and answers what the
    /// transport answered; refused when there is none.
    pub fn receive_packet(&mut self) -> (res: Result<Option<Packet>, MessengerError>)
        ensures
            !old(self).has_transport() ==> res == Err::<Option<Packet>, MessengerError>(MessengerError::NoTransport),
            old(self).has_transport() ==> res != Err::<Option<Packet>, MessengerError>(MessengerError::NoTransport),
            final(self).has_transport() == old(self).has_transport(),
            !old(self).has_transport() ==> final(self).registered() == old(self).registered(),
            old(self).has_transport() ==> (res matches Ok(Some(p)) ==> old(self).registered()->Some_0.inbox().len() > 0
                && p == old(self).registered()->Some_0.inbox()[0]
                && final(self).registered()->Some_0.inbox() == old(self).registered()->Some_0.inbox().drop_first()),
            old(self).has_transport() && !(res matches Ok(Some(_))) ==> final(self).registered()->Some_0.inbox()
                == old(self).registered()->Some_0.inbox(),
    {
        match &mut self.transport {
            Some(t) => t.receive(),
            None => Err(MessengerError::NoTransport),
        }
    }
}

impl<T: Transport> Default for TransportManager<T> {
    fn default() -> (m: Self)
        ensures
            !m.has_transport(),
            m.registered() is None,
    {
        TransportManager::new()
    }
}

} // verus!
