//! ICE candidates: the addresses at which a peer may be reached.
use vstd::prelude::*;
use crate::text::{decimal, push_decimal};

verus! {

/// How a candidate address was obtained.
#[derive(Debug, Clone, Copy, PartialEq, Eq, Structural)]
pub enum CandidateType {
    Host,
    ServerReflexive,
    Relay,
}

/// The label under which a candidate type is written (`Display`).
pub open spec fn candidate_type_label(t: CandidateType) -> Seq<char> {
    match t {
        CandidateType::Host => "HOST"@,
        CandidateType::ServerReflexive => "SERVER_REFLEXIVE"@,
        CandidateType::Relay => "RELAY"@,
    }
}

/// The short tag of a candidate type in a candidate's display line.
pub open spec fn candidate_type_tag(t: CandidateType) -> Seq<char> {
    match t {
        CandidateType::Host => "HOST"@,
        CandidateType::ServerReflexive => "SRFLX"@,
        CandidateType::Relay => "RELAY"@,
    }
}

impl CandidateType {
    /// The text that `Display` writes for this type.
    pub fn as_str(&self) -> (s: &'static str)
        ensures
            s@ == candidate_type_label(*self),
    {
        match self {
            CandidateType::Host => "HOST",
            CandidateType::ServerReflexive => "SERVER_REFLEXIVE",
            CandidateType::Relay => "RELAY",
        }
    }
}

/// One transport address of a peer, with its ICE attributes.
#[derive(Debug)]
pub struct IceCandidate {
    pub foundation: String,
    pub component: u16,
    pub transport: String,
    pub priority: u32,
    pub address: String,
    pub port: u16,
    pub candidate_type: CandidateType,
}

impl Clone for IceCandidate {
    fn clone(&self) -> (r: Self)
        ensures
            r == *self,
    {
        IceCandidate {
            foundation: self.foundation.clone(),
            component: self.component,
            transport: self.transport.clone(),
            priority: self.priority,
            address: self.address.clone(),
            port: self.port,
            candidate_type: self.candidate_type,
        }
    }
}

/// The one-line rendering of a candidate: foundation, type tag and `address:port`.
pub open spec fn candidate_display(c: IceCandidate) -> Seq<char> {
    c.foundation@ + " "@ + candidate_type_tag(c.candidate_type) + " "@ + c.address@ + ":"@
        + decimal(c.port as nat)
}

impl IceCandidate {
    /// Renders the candidate as `"<foundation> <TAG> <address>:<port>"`.
    pub fn to_display_string(&self) -> (s: String)
        ensures
            s@ == candidate_display(*self),
    {
        let tag = match self.candidate_type {
            CandidateType::Host => "HOST",
            CandidateType::ServerReflexive => "SRFLX",
            CandidateType::Relay => "RELAY",
        };
        let mut s = self.foundation.clone();
        s.append(" ");
        s.append(tag);
        s.append(" ");
        s.append(self.address.as_str());
        s.append(":");
        push_decimal(&mut s, self.port as u64);
        s
    }
}

} // verus!
