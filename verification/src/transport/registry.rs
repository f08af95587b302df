//! Choosing the transport to reach a peer.
use vstd::prelude::*;
use crate::error::MessengerError;
use crate::network::endpoints::{socket_ports, socket_ports_spec};
use crate::punch::manager::{find_punch_session, first_punch_for, has_punch_for};
use crate::punch::session::PunchSession;
use crate::punch::state::PunchState;
use crate::transport::mock::MockTransport;
use crate::transport::transport_trait::Transport;

verus! {

/// The kinds of transport a connection may use.
#[derive(Debug, Clone, Copy, PartialEq, Eq, Structural)]
pub enum TransportType {
    Mock,
    Tcp,
    Ice,
    Turn,
}

/// The transport to open for a peer.
#[derive(Debug)]
pub enum TransportPlan {
    /// An in-memory transport, already open.
    Mock(MockTransport),
    /// A UDP transport bound on `local_port` and sending to `remote_address:remote_port`.
    Udp { local_port: u16, remote_address: String, remote_port: u16 },
}

/// Decides the transport of `transport_type` for `peer`: a mock transport is
/// always available and comes open and empty; TCP and TURN are not
/// implemented; ICE needs an established hole-punching session with the peer (up to ASCII case), whose pair gives the
/// address and, with `me`, the ports.
pub fn create_transport(
    transport_type: TransportType,
    peer: &str,
    me: &str,
    punch_sessions: &[PunchSession],
) -> (res: Result<TransportPlan, MessengerError>)
    ensures
        transport_type == TransportType::Mock ==> (res matches Ok(TransportPlan::Mock(t)) && {
            &&& t.connected_spec()
            &&& t.incoming_spec().len() == 0
            &&& t.outgoing_spec().len() == 0
        }),
        transport_type == TransportType::Tcp ==> res == Err::<TransportPlan, MessengerError>(MessengerError::TransportNotImplemented(TransportType::Tcp)),
        transport_type == TransportType::Turn ==> res == Err::<TransportPlan, MessengerError>(MessengerError::TransportNotImplemented(TransportType::Turn)),
        transport_type == TransportType::Ice && !has_punch_for(punch_sessions@, peer@) ==> res == Err::<TransportPlan, MessengerError>(MessengerError::PunchSessionNotFound),
        transport_type == TransportType::Ice && has_punch_for(punch_sessions@, peer@) ==> exists|k: int| #[trigger] first_punch_for(punch_sessions@, peer@, k) && {
            let s = punch_sessions@[k];
            if s.state != PunchState::Established {
                res == Err::<TransportPlan, MessengerError>(MessengerError::PunchNotEstablished(s.state))
            } else {
                match res {
                    Ok(TransportPlan::Udp { local_port, remote_address, remote_port }) => {
                        &&& (local_port, remote_port) == socket_ports_spec(s.selected_pair, me@, peer@)
                        &&& remote_address@ == s.selected_pair.remote.address@
                    },
                    _ => false,
                }
            }
        },
{
    match transport_type {
        TransportType::Mock => {
            let mut mock = MockTransport::new();
            let _ = mock.connect();
            Ok(TransportPlan::Mock(mock))
        },
        TransportType::Tcp => Err(MessengerError::TransportNotImplemented(TransportType::Tcp)),
        TransportType::Turn => Err(MessengerError::TransportNotImplemented(TransportType::Turn)),
        TransportType::Ice => {
            let k = match find_punch_session(punch_sessions, peer) {
                Some(k) => k,
                None => {
                    return Err(MessengerError::PunchSessionNotFound);
                },
            };
            let s = &punch_sessions[k];
            if s.state != PunchState::Established {
                return Err(MessengerError::PunchNotEstablished(s.state));
            }
            let (local_port, remote_port) = socket_ports(&s.selected_pair, me, peer);
            Ok(TransportPlan::Udp { local_port, remote_address: s.selected_pair.remote.address.clone(), remote_port })
        },
    }
}

} // verus!
