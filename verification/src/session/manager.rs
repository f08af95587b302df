//! Starting and stopping the local presence session.
use vstd::prelude::*;
use crate::error::MessengerError;
use crate::session::models::Session;
use crate::stamp::{is_stamp, is_v4_uuid, new_uuid, now_rfc3339, uuid_hyphenated, uuid_to_string};

verus! {

/// Starts the presence session of the registered user `username` (none when no
/// identity is registered): a saved session that is online is kept as it is;
/// otherwise a fresh online session with a random id and client version 0.2.0
/// is made. The flag tells whether the session is fresh and must be saved.
pub fn start_session(username: Option<&str>, saved: Option<Session>) -> (res: Result<
    (Session, bool),
    MessengerError,
>)
    ensures
        username is None ==> res == Err::<(Session, bool), MessengerError>(MessengerError::NoIdentity),
        username is Some && (saved is Some && saved->Some_0.online) ==> res == Ok::<(Session, bool), MessengerError>((saved->Some_0, false)),
        username is Some && !(saved is Some && saved->Some_0.online) ==> (res matches Ok((s, fresh)) && {
            &&& fresh
            &&& s.username@ == username->Some_0@
            &&& s.online
            &&& s.client_version@ == "0.2.0"@
            &&& is_stamp(s.started_at@)
            &&& exists|id: u128| is_v4_uuid(id) && s.session_id@ == uuid_hyphenated(id)
        }),
{
    let username = match username {
        Some(u) => u,
        None => {
            return Err(MessengerError::NoIdentity);
        },
    };
    match saved {
        Some(s) => {
            if s.online {
                return Ok((s, false));
            }
        },
        None => {},
    }
    let id = new_uuid();
    let session = Session {
        session_id: uuid_to_string(id),
        username: String::from_str(username),
        started_at: now_rfc3339(),
        online: true,
        client_version: String::from_str("0.2.0"),
    };
    Ok((session, true))
}

/// The saved session, marked offline; everything else is kept.
pub fn stop_session(saved: Session) -> (s: Session)
    ensures
        !s.online,
        s.session_id == saved.session_id,
        s.username == saved.username,
        s.started_at == saved.started_at,
        s.client_version == saved.client_version,
{
    let mut s = saved;
    s.online = false;
    s
}

/// Whether the saved session, if there is one, is online.
pub fn is_online(saved: Option<&Session>) -> (b: bool)
    ensures
        b == (saved matches Some(s) && s.online),
{
    match saved {
        Some(s) => s.online,
        None => false,
    }
}

} // verus!
