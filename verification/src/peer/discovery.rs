//! What discovery learns of a peer.
use vstd::prelude::*;
use crate::network::candidate::IceCandidate;
use crate::peer::capabilities::{PeerCapabilities, is_default_capabilities};

verus! {

/// A peer as discovery reports it: presence, capabilities and candidates.
#[derive(Debug)]
pub struct DiscoveredPeer {
    pub username: String,
    pub online: bool,
    pub capabilities: PeerCapabilities,
    pub candidates: Vec<IceCandidate>,
}

/// Discovers peers through the registry.
pub struct PeerDiscoveryManager;

impl PeerDiscoveryManager {
    /// What discovery reports of `username`, given its presence and the
    /// candidates that it published: its capabilities are assumed to be the
    /// defaults, since none are exchanged.
    pub fn discovered_peer(username: &str, online: bool, candidates: Vec<IceCandidate>) -> (p:
        DiscoveredPeer)
        ensures
            p.username@ == username@,
            p.online == online,
            is_default_capabilities(p.capabilities),
            p.candidates@ == candidates@,
    {
        DiscoveredPeer {
            username: String::from_str(username),
            online,
            capabilities: PeerCapabilities::default(),
            candidates,
        }
    }
}

} // verus!
