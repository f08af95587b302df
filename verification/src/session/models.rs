//! The local presence session.
use vstd::prelude::*;

verus! {

/// The local client's presence session.
#[derive(Debug)]
pub struct Session {
    pub session_id: String,
    pub username: String,
    pub started_at: String,
    pub online: bool,
    pub client_version: String,
}

impl Clone for Session {
    fn clone(&self) -> (r: Self)
        ensures
            r == *self,
    {
        Session {
            session_id: self.session_id.clone(),
            username: self.username.clone(),
            started_at: self.started_at.clone(),
            online: self.online,
            client_version: self.client_version.clone(),
        }
    }
}

} // verus!
