//! The answer to a connection offer.
use vstd::prelude::*;
use crate::network::candidate::IceCandidate;
use crate::peer::capabilities::PeerCapabilities;

verus! {

/// A peer's answer to an offer: accepted or not, the candidate it selected and
/// its own capabilities.
#[derive(Debug)]
pub struct ConnectionAnswer {
    pub offer_id: String,
    pub accepted: bool,
    pub selected_candidate: IceCandidate,
    pub capabilities: PeerCapabilities,
    pub timestamp: String,
}

impl Clone for ConnectionAnswer {
    fn clone(&self) -> (r: Self)
        ensures
            r == *self,
    {
        ConnectionAnswer {
            offer_id: self.offer_id.clone(),
            accepted: self.accepted,
            selected_candidate: self.selected_candidate.clone(),
            capabilities: self.capabilities.clone(),
            timestamp: self.timestamp.clone(),
        }
    }
}

} // verus!
