//! Turning discovered addresses into ICE candidates.
use vstd::prelude::*;
use crate::network::candidate::{CandidateType, IceCandidate};
use crate::network::endpoints::DEFAULT_PORT;
use crate::network::nat_info::{NatType, NetworkInfo};
use crate::text::{decimal, decimal_string};

verus! {

/// Discovers this client's candidates.
pub struct DiscoveryManager;

/// The STUN server that discovery asks for the public endpoint.
pub open spec fn stun_server_name() -> Seq<char> {
    "stun.l.google.com:19302"@
}

/// The ICE priority of a host candidate.
pub const HOST_PRIORITY: u32 = 2130706431;
/// The ICE priority of a server-reflexive candidate.
pub const SRFLX_PRIORITY: u32 = 1686052863;

/// A UDP candidate of component 1 with foundation `n`.
pub open spec fn is_candidate(c: IceCandidate, n: nat, address: Seq<char>, port: u16, priority: u32, t: CandidateType) -> bool {
    &&& c.foundation@ == decimal(n)
    &&& c.component == 1
    &&& c.transport@ == "UDP"@
    &&& c.priority == priority
    &&& c.address@ == address
    &&& c.port == port
    &&& c.candidate_type == t
}

fn candidate(n: u64, address: &str, port: u16, priority: u32, t: CandidateType) -> (c: IceCandidate)
    ensures
        is_candidate(c, n as nat, address@, port, priority, t),
{
    IceCandidate {
        foundation: decimal_string(n),
        component: 1,
        transport: String::from_str("UDP"),
        priority,
        address: String::from_str(address),
        port,
        candidate_type: t,
    }
}

impl DiscoveryManager {
    /// The candidates of this client: one host candidate on the default port per
    /// local address, foundations counting from 1, then the server-reflexive
    /// candidate of the public endpoint if STUN found one; and the network
    /// information, whose local address is the first local address (127.0.0.1
    /// if none) and whose public endpoint is 0.0.0.0:0 when STUN found none.
    pub fn build_candidates(local_ips: &[String], public: Option<(&str, u16)>) -> (r: (Vec<IceCandidate>, NetworkInfo))
        requires
            local_ips@.len() < u64::MAX,
        ensures
            r.0@.len() == local_ips@.len() + (if public is Some { 1int } else { 0int }),
            forall|i: int| 0 <= i < local_ips@.len() ==> is_candidate(#[trigger] r.0@[i], (i + 1) as nat, local_ips@[i]@, DEFAULT_PORT, HOST_PRIORITY, CandidateType::Host),
            public matches Some((ip, port)) ==> is_candidate(r.0@[local_ips@.len() as int], (local_ips@.len() + 1) as nat, ip@, port, SRFLX_PRIORITY, CandidateType::ServerReflexive),
            r.1.local_ip@ == (if local_ips@.len() > 0 { local_ips@[0]@ } else { "127.0.0.1"@ }),
            r.1.public_ip@ == (match public { Some((ip, _)) => ip@, None => "0.0.0.0"@ }),
            r.1.public_port == (match public { Some((_, port)) => port, None => 0u16 }),
            r.1.nat_type == NatType::Unknown,
            r.1.stun_server@ == stun_server_name(),
    {
        let mut candidates: Vec<IceCandidate> = Vec::new();
        let n = local_ips.len();
        let mut i: usize = 0;
        while i < n
            invariant
                n == local_ips@.len(),
                n < u64::MAX,
                i <= n,
                candidates@.len() == i,
                forall|j: int| 0 <= j < i ==> is_candidate(#[trigger] candidates@[j], (j + 1) as nat, local_ips@[j]@, DEFAULT_PORT, HOST_PRIORITY, CandidateType::Host),
            decreases n - i,
        {
            candidates.push(candidate((i as u64) + 1, local_ips[i].as_str(), DEFAULT_PORT, HOST_PRIORITY, CandidateType::Host));
            i = i + 1;
        }
        let local_ip = if n > 0 { local_ips[0].clone() } else { String::from_str("127.0.0.1") };
        let info = match public {
            Some((ip, port)) => {
                candidates.push(candidate((n as u64) + 1, ip, port, SRFLX_PRIORITY, CandidateType::ServerReflexive));
                NetworkInfo {
                    local_ip,
                    public_ip: String::from_str(ip),
                    public_port: port,
                    nat_type: NatType::Unknown,
                    stun_server: String::from_str("stun.l.google.com:19302"),
                }
            },
            None => NetworkInfo {
                local_ip,
                public_ip: String::from_str("0.0.0.0"),
                public_port: 0,
                nat_type: NatType::Unknown,
                stun_server: String::from_str("stun.l.google.com:19302"),
            },
        };
        (candidates, info)
    }
}

} // verus!
