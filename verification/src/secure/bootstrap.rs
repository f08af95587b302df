//! Establishing a secure session with a negotiated peer.
use vstd::prelude::*;
use crate::error::MessengerError;
use crate::network::session_keys::{derive_shared_secret, generate_ephemeral_keypair};
use crate::secure::session::SecureSession;
use crate::stamp::{is_stamp, is_v4_uuid, new_uuid, now_rfc3339, uuid_hyphenated, uuid_to_string};
use crate::text::{eq_ignore_ascii_case, eq_ignore_ascii_case_spec};

verus! {

/// `k` indexes the first name of `names` equal to `name` up to ASCII case.
pub open spec fn first_name_match(names: Seq<String>, name: Seq<char>, k: int) -> bool {
    &&& 0 <= k < names.len()
    &&& eq_ignore_ascii_case_spec(names[k]@, name)
    &&& forall|k2: int| 0 <= k2 < k ==> !eq_ignore_ascii_case_spec(#[trigger] names[k2]@, name)
}

/// The index of the first name equal to `name` up to ASCII case.
fn find_name(names: &[String], name: &str) -> (r: Option<usize>)
    ensures
        match r {
            Some(k) => first_name_match(names@, name@, k as int),
            None => forall|k: int| 0 <= k < names@.len() ==> !eq_ignore_ascii_case_spec(#[trigger] names@[k]@, name@),
        },
{
    let n = names.len();
    let mut k: usize = 0;
    while k < n
        invariant
            n == names@.len(),
            k <= n,
            forall|k2: int| 0 <= k2 < k ==> !eq_ignore_ascii_case_spec(#[trigger] names@[k2]@, name@),
        decreases n - k,
    {
        if eq_ignore_ascii_case(names[k].as_str(), name) {
            return Some(k);
        }
        k = k + 1;
    }
    None
}

/// `s` without the secure sessions with `peer` (up to ASCII case).
pub open spec fn without_secure_peer(s: Seq<SecureSession>, peer: Seq<char>) -> Seq<SecureSession> {
    s.filter(|x: SecureSession| !eq_ignore_ascii_case_spec(x.peer@, peer))
}

/// Establishes a secure session with `username`, which must be one of the
/// negotiated peers (up to ASCII case). A fresh key pair is agreed with the
/// peer and the shared secret is kept in memory only; the session, named as
/// the negotiated peer is named and with a fresh random id, replaces any
/// earlier secure session with that peer.
pub fn bootstrap_secure_session(
    username: &str,
    negotiated_peers: &[String],
    secure_sessions: &mut Vec<SecureSession>,
) -> (res: Result<SecureSession, MessengerError>)
    ensures
        (forall|k: int| 0 <= k < negotiated_peers@.len() ==> !eq_ignore_ascii_case_spec(#[trigger] negotiated_peers@[k]@, username@))
            ==> res == Err::<SecureSession, MessengerError>(MessengerError::NoNegotiatedConnection)
            && final(secure_sessions)@ == old(secure_sessions)@,
        (exists|k: int| 0 <= k < negotiated_peers@.len() && eq_ignore_ascii_case_spec(#[trigger] negotiated_peers@[k]@, username@))
            ==> (res matches Ok(s) && {
            &&& exists|k: int| first_name_match(negotiated_peers@, username@, k) && s.peer == negotiated_peers@[k]
            &&& s.established
            &&& is_stamp(s.created_at@)
            &&& exists|id: u128| is_v4_uuid(id) && s.session_id@ == uuid_hyphenated(id)
            &&& final(secure_sessions)@ == without_secure_peer(old(secure_sessions)@, username@).push(s)
        }),
{
    let k = match find_name(negotiated_peers, username) {
        Some(k) => k,
        None => {
            return Err(MessengerError::NoNegotiatedConnection);
        },
    };
    let (local_secret, _local_public) = generate_ephemeral_keypair();
    let (_peer_secret, peer_public) = generate_ephemeral_keypair();
    let _shared_secret = derive_shared_secret(local_secret, &peer_public);

    let id = new_uuid();
    let session = SecureSession {
        session_id: uuid_to_string(id),
        peer: negotiated_peers[k].clone(),
        created_at: now_rfc3339(),
        established: true,
    };

    let ghost orig = secure_sessions@;
    let mut kept: Vec<SecureSession> = Vec::new();
    let m = secure_sessions.len();
    let mut i: usize = 0;
    while i < m
        invariant
            m == secure_sessions@.len(),
            secure_sessions@ == orig,
            i <= m,
            kept@ == without_secure_peer(orig.take(i as int), username@),
        decreases m - i,
    {
        proof {
            assert(orig.take(i + 1) =~= orig.take(i as int).push(orig[i as int]));
            orig.take(i as int).lemma_filter_push(orig[i as int], |x: SecureSession| !eq_ignore_ascii_case_spec(x.peer@, username@));
        }
        if !eq_ignore_ascii_case(secure_sessions[i].peer.as_str(), username) {
            kept.push(secure_sessions[i].clone());
        }
        i = i + 1;
    }
    proof {
        assert(orig.take(m as int) =~= orig);
    }
    kept.push(session.clone());
    *secure_sessions = kept;
    Ok(session)
}

} // verus!
