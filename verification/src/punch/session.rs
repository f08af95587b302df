//! The record of a hole-punching session.
use vstd::prelude::*;
use crate::ice::pair::CandidatePair;
use crate::punch::state::PunchState;

verus! {

/// A hole-punching session with a peer: the pair it punched, how it ended and
/// after how many attempts.
#[derive(Debug)]
pub struct PunchSession {
    pub session_id: String,
    pub peer: String,
    pub selected_pair: CandidatePair,
    pub state: PunchState,
    pub attempts: usize,
    pub started_at: String,
}

impl Clone for PunchSession {
    fn clone(&self) -> (r: Self)
        ensures
            r == *self,
    {
        PunchSession {
            session_id: self.session_id.clone(),
            peer: self.peer.clone(),
            selected_pair: self.selected_pair.clone(),
            state: self.state,
            attempts: self.attempts,
            started_at: self.started_at.clone(),
        }
    }
}

} // verus!
