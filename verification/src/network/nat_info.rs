//! The NAT in front of this client and what discovery learned of the network.
use vstd::prelude::*;

verus! {

/// The kind of NAT in front of a client.
#[derive(Debug, Clone, Copy, PartialEq, Eq, Structural)]
pub enum NatType {
    Unknown,
    OpenInternet,
    FullCone,
    Restricted,
    PortRestricted,
    Symmetric,
}

/// The label that `Display` writes for a NAT type.
pub open spec fn nat_type_label(t: NatType) -> Seq<char> {
    match t {
        NatType::Unknown => "UNKNOWN"@,
        NatType::OpenInternet => "OPEN_INTERNET"@,
        NatType::FullCone => "FULL_CONE"@,
        NatType::Restricted => "RESTRICTED"@,
        NatType::PortRestricted => "PORT_RESTRICTED"@,
        NatType::Symmetric => "SYMMETRIC"@,
    }
}

impl NatType {
    /// The text that `Display` writes for this type.
    pub fn as_str(&self) -> (s: &'static str)
        ensures
            s@ == nat_type_label(*self),
    {
        match self {
            NatType::Unknown => "UNKNOWN",
            NatType::OpenInternet => "OPEN_INTERNET",
            NatType::FullCone => "FULL_CONE",
            NatType::Restricted => "RESTRICTED",
            NatType::PortRestricted => "PORT_RESTRICTED",
            NatType::Symmetric => "SYMMETRIC",
        }
    }
}

/// What discovery learned: the primary local address, the public endpoint, the
/// NAT type and the STUN server asked.
#[derive(Debug)]
pub struct NetworkInfo {
    pub local_ip: String,
    pub public_ip: String,
    pub public_port: u16,
    pub nat_type: NatType,
    pub stun_server: String,
}

} // verus!
