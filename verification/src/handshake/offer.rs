//! A connection offer sent to a peer.
use vstd::prelude::*;
use crate::network::candidate::IceCandidate;
use crate::peer::capabilities::PeerCapabilities;

verus! {

/// An offer to connect: who offers to whom, under which presence session, with
/// which candidates and capabilities.
#[derive(Debug)]
pub struct ConnectionOffer {
    pub offer_id: String,
    pub sender: String,
    pub recipient: String,
    pub session_id: String,
    pub candidates: Vec<IceCandidate>,
    pub capabilities: PeerCapabilities,
    pub timestamp: String,
}

/// `a` and `b` are the same offer: equal fields, equal candidate lists.
pub open spec fn same_offer(a: ConnectionOffer, b: ConnectionOffer) -> bool {
    &&& a.offer_id == b.offer_id
    &&& a.sender == b.sender
    &&& a.recipient == b.recipient
    &&& a.session_id == b.session_id
    &&& a.candidates@ == b.candidates@
    &&& a.capabilities == b.capabilities
    &&& a.timestamp == b.timestamp
}

impl Clone for ConnectionOffer {
    fn clone(&self) -> (r: Self)
        ensures
            same_offer(r, *self),
    {
        let candidates = self.candidates.clone();
        proof {
            assert(candidates@ =~= self.candidates@);
        }
        ConnectionOffer {
            offer_id: self.offer_id.clone(),
            sender: self.sender.clone(),
            recipient: self.recipient.clone(),
            session_id: self.session_id.clone(),
            candidates,
            capabilities: self.capabilities.clone(),
            timestamp: self.timestamp.clone(),
        }
    }
}

} // verus!
