//! The record of a secure session with a peer.
use vstd::prelude::*;

verus! {

/// A secure session with a peer; only its metadata is kept, never key material.
#[derive(Debug)]
pub struct SecureSession {
    pub session_id: String,
    pub peer: String,
    pub created_at: String,
    pub established: bool,
}

impl Clone for SecureSession {
    fn clone(&self) -> (r: Self)
        ensures
            r == *self,
    {
        SecureSession {
            session_id: self.session_id.clone(),
            peer: self.peer.clone(),
            created_at: self.created_at.clone(),
            established: self.established,
        }
    }
}

} // verus!
