//! The decisions around the periodic presence heartbeat.
use vstd::prelude::*;
use crate::error::MessengerError;
use crate::session::models::Session;

verus! {

/// The seconds between two heartbeats.
pub const HEARTBEAT_INTERVAL_SECS: u64 = 30;

/// What each heartbeat tells the registry.
#[derive(Debug, Clone, PartialEq, Eq)]
pub struct HeartbeatTarget {
    pub username: String,
    pub session_id: String,
    pub client_version: String,
}

/// The heartbeat that `username` sends for `session`.
pub open spec fn targets(t: HeartbeatTarget, username: Seq<char>, session: Session) -> bool {
    &&& t.username@ == username
    &&& t.session_id@ == session.session_id@
    &&& t.client_version@ == session.client_version@
}

fn target_of(username: &str, session: &Session) -> (t: HeartbeatTarget)
    ensures
        targets(t, username@, *session),
{
    HeartbeatTarget {
        username: String::from_str(username),
        session_id: session.session_id.clone(),
        client_version: session.client_version.clone(),
    }
}

/// Whether a heartbeat loop may start, and what it then sends: not while one
/// runs, not without a registered identity, not without a saved session, and
/// not while that session is offline, refused in that order.
pub fn heartbeat_start(running: bool, username: Option<&str>, session: Option<&Session>) -> (res:
    Result<HeartbeatTarget, MessengerError>)
    ensures
        running ==> res == Err::<HeartbeatTarget, MessengerError>(MessengerError::AlreadyRunning),
        !running && username is None ==> res == Err::<HeartbeatTarget, MessengerError>(
            MessengerError::NoIdentity,
        ),
        !running && username is Some && session is None ==> res == Err::<
            HeartbeatTarget,
            MessengerError,
        >(MessengerError::NoSession),
        !running && username is Some && session is Some && !session->Some_0.online ==> res
            == Err::<HeartbeatTarget, MessengerError>(MessengerError::SessionOffline),
        !running && username is Some && session is Some && session->Some_0.online ==> (res matches Ok(
            t,
        ) && targets(t, username->Some_0@, *session->Some_0)),
{
    if running {
        return Err(MessengerError::AlreadyRunning);
    }
    let username = match username {
        Some(u) => u,
        None => {
            return Err(MessengerError::NoIdentity);
        },
    };
    let session = match session {
        Some(s) => s,
        None => {
            return Err(MessengerError::NoSession);
        },
    };
    if !session.online {
        return Err(MessengerError::SessionOffline);
    }
    Ok(target_of(username, session))
}

/// What a single heartbeat sends, outside a loop: the session need not be online.
pub fn heartbeat_tick(username: Option<&str>, session: Option<&Session>) -> (res: Result<
    HeartbeatTarget,
    MessengerError,
>)
    ensures
        username is None ==> res == Err::<HeartbeatTarget, MessengerError>(MessengerError::NoIdentity),
        username is Some && session is None ==> res == Err::<HeartbeatTarget, MessengerError>(
            MessengerError::NoSession,
        ),
        username is Some && session is Some ==> (res matches Ok(t) && targets(
            t,
            username->Some_0@,
            *session->Some_0,
        )),
{
    let username = match username {
        Some(u) => u,
        None => {
            return Err(MessengerError::NoIdentity);
        },
    };
    match session {
        Some(s) => Ok(target_of(username, s)),
        None => Err(MessengerError::NoSession),
    }
}

/// The registry's answer to a heartbeat: a refusal is an error.
pub fn check_heartbeat_reply(success: bool) -> (res: Result<(), MessengerError>)
    ensures
        success <==> res is Ok,
        !success ==> res == Err::<(), MessengerError>(MessengerError::HeartbeatRejected),
{
    if success {
        Ok(())
    } else {
        Err(MessengerError::HeartbeatRejected)
    }
}

} // verus!
