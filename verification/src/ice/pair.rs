//! A local and a remote candidate checked together.
use vstd::prelude::*;
use crate::ice::state::IceConnectionState;
use crate::network::candidate::IceCandidate;

verus! {

/// A local candidate, a remote candidate, the pair's priority and its check state.
#[derive(Debug)]
pub struct CandidatePair {
    pub local: IceCandidate,
    pub remote: IceCandidate,
    pub priority: u32,
    pub state: IceConnectionState,
}

impl Clone for CandidatePair {
    fn clone(&self) -> (r: Self)
        ensures
            r == *self,
    {
        CandidatePair {
            local: self.local.clone(),
            remote: self.remote.clone(),
            priority: self.priority,
            state: self.state,
        }
    }
}

impl CandidatePair {
    /// A pair that has not been checked yet: its state is `Checking`.
    pub fn new(local: IceCandidate, remote: IceCandidate, priority: u32) -> (p: Self)
        ensures
            p.local == local,
            p.remote == remote,
            p.priority == priority,
            p.state == IceConnectionState::Checking,
    {
        CandidatePair { local, remote, priority, state: IceConnectionState::Checking }
    }
}

} // verus!
