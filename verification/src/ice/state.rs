//! The state of an ICE candidate pair.
use vstd::prelude::*;

verus! {

/// Where the connectivity check of a candidate pair stands.
#[derive(Debug, Clone, Copy, PartialEq, Eq, Structural)]
pub enum IceConnectionState {
    New,
    Checking,
    Connected,
    Failed,
    Disconnected,
}

/// The label that `Display` writes for a state.
pub open spec fn ice_state_label(s: IceConnectionState) -> Seq<char> {
    match s {
        IceConnectionState::New => "NEW"@,
        IceConnectionState::Checking => "CHECKING"@,
        IceConnectionState::Connected => "CONNECTED"@,
        IceConnectionState::Failed => "FAILED"@,
        IceConnectionState::Disconnected => "DISCONNECTED"@,
    }
}

impl IceConnectionState {
    /// The text that `Display` writes for this state.
    pub fn as_str(&self) -> (s: &'static str)
        ensures
            s@ == ice_state_label(*self),
    {
        match self {
            IceConnectionState::New => "NEW",
            IceConnectionState::Checking => "CHECKING",
            IceConnectionState::Connected => "CONNECTED",
            IceConnectionState::Failed => "FAILED",
            IceConnectionState::Disconnected => "DISCONNECTED",
        }
    }
}

} // verus!
