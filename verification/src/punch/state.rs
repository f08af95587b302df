//! The state of a UDP hole-punching session.
use vstd::prelude::*;

verus! {

/// Where a hole-punching session stands.
#[derive(Debug, Clone, Copy, PartialEq, Eq, Structural)]
pub enum PunchState {
    New,
    Probing,
    Waiting,
    Established,
    Failed,
}

/// The label that `Display` writes for a state.
pub open spec fn punch_state_label(s: PunchState) -> Seq<char> {
    match s {
        PunchState::New => "NEW"@,
        PunchState::Probing => "PROBING"@,
        PunchState::Waiting => "WAITING"@,
        PunchState::Established => "ESTABLISHED"@,
        PunchState::Failed => "FAILED"@,
    }
}

impl PunchState {
    /// The text that `Display` writes for this state.
    pub fn as_str(&self) -> (s: &'static str)
        ensures
            s@ == punch_state_label(*self),
    {
        match self {
            PunchState::New => "NEW",
            PunchState::Probing => "PROBING",
            PunchState::Waiting => "WAITING",
            PunchState::Established => "ESTABLISHED",
            PunchState::Failed => "FAILED",
        }
    }
}

} // verus!
