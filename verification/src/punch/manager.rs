//! Finding the hole-punching session of a peer.
use vstd::prelude::*;
use crate::error::MessengerError;
use crate::punch::session::PunchSession;
use crate::punch::state::PunchState;
use crate::text::{eq_ignore_ascii_case, eq_ignore_ascii_case_spec};

verus! {

/// Resumes hole-punching sessions that were established before.
pub struct HolePunchManager;

/// `k` indexes the first session of `s` whose peer is `peer`, up to ASCII case.
pub open spec fn first_punch_for(s: Seq<PunchSession>, peer: Seq<char>, k: int) -> bool {
    &&& 0 <= k < s.len()
    &&& eq_ignore_ascii_case_spec(s[k].peer@, peer)
    &&& forall|k2: int| 0 <= k2 < k ==> !eq_ignore_ascii_case_spec(#[trigger] s[k2].peer@, peer)
}

/// Some session of `s` is with `peer`, up to ASCII case.
pub open spec fn has_punch_for(s: Seq<PunchSession>, peer: Seq<char>) -> bool {
    exists|k: int| 0 <= k < s.len() && eq_ignore_ascii_case_spec(#[trigger] s[k].peer@, peer)
}

/// The index of the first session with `peer`, up to ASCII case.
pub fn find_punch_session(sessions: &[PunchSession], peer: &str) -> (r: Option<usize>)
    ensures
        match r {
            Some(k) => first_punch_for(sessions@, peer@, k as int),
            None => !has_punch_for(sessions@, peer@),
        },
{
    let n = sessions.len();
    let mut k: usize = 0;
    while k < n
        invariant
            n == sessions@.len(),
            k <= n,
            forall|k2: int| 0 <= k2 < k ==> !eq_ignore_ascii_case_spec(#[trigger] sessions@[k2].peer@, peer@),
        decreases n - k,
    {
        if eq_ignore_ascii_case(sessions[k].peer.as_str(), peer) {
            return Some(k);
        }
        k = k + 1;
    }
    None
}

/// What resuming the session with `peer` gives: the first session with that
/// peer (up to ASCII case) if it is established.
pub open spec fn resume_result(s: Seq<PunchSession>, peer: Seq<char>, r: Result<PunchSession, MessengerError>) -> bool {
    if !has_punch_for(s, peer) {
        r == Err::<PunchSession, MessengerError>(MessengerError::PunchSessionNotFound)
    } else {
        exists|k: int| first_punch_for(s, peer, k) && if s[k].state == PunchState::Established {
            r == Ok::<PunchSession, MessengerError>(s[k])
        } else {
            r == Err::<PunchSession, MessengerError>(MessengerError::PunchNotEstablished(s[k].state))
        }
    }
}

/// Marks the first session with `peer` (up to ASCII case) established, as the
/// acknowledgement of a probe from that peer does; tells whether there was one.
pub fn mark_punch_established(sessions: &mut Vec<PunchSession>, peer: &str) -> (found: bool)
    ensures
        found == has_punch_for(old(sessions)@, peer@),
        !found ==> final(sessions)@ == old(sessions)@,
        found ==> exists|k: int| first_punch_for(old(sessions)@, peer@, k)
            && final(sessions)@ == old(sessions)@.update(k, PunchSession { state: PunchState::Established, ..old(sessions)@[k] }),
{
    match find_punch_session(sessions.as_slice(), peer) {
        Some(k) => {
            let ghost before = sessions@;
            sessions[k].state = PunchState::Established;
            proof {
                assert(sessions@ =~= before.update(k as int, PunchSession { state: PunchState::Established, ..before[k as int] }));
            }
            true
        },
        None => false,
    }
}

impl HolePunchManager {
    /// The first session with `peer` (up to ASCII case), if it is established.
    pub fn resume_session(peer: &str, sessions: &[PunchSession]) -> (res: Result<PunchSession, MessengerError>)
        ensures
            resume_result(sessions@, peer@, res),
    {
        match find_punch_session(sessions, peer) {
            None => Err(MessengerError::PunchSessionNotFound),
            Some(k) => {
                if sessions[k].state != PunchState::Established {
                    Err(MessengerError::PunchNotEstablished(sessions[k].state))
                } else {
                    Ok(sessions[k].clone())
                }
            },
        }
    }
}

} // verus!
