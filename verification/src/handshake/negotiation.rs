//! The record of a handshake: an offer, its answer if any, and its status.
use vstd::prelude::*;
use crate::handshake::answer::ConnectionAnswer;
use crate::handshake::offer::ConnectionOffer;

verus! {

/// A handshake as it is kept: the offer, the answer once there is one, and the
/// status `PENDING`, `ACCEPTED` or `REJECTED`.
#[derive(Debug)]
pub struct HandshakeSession {
    pub offer: ConnectionOffer,
    pub answer: Option<ConnectionAnswer>,
    pub status: String,
}

} // verus!
