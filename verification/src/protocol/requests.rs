//! Message requests: a first contact from a user waits to be accepted or rejected.
use vstd::prelude::*;
use crate::error::MessengerError;
use crate::stamp::{UtcTime, chrono_accepts, is_v4_uuid, new_uuid, now_utc};
use crate::text::{eq_ignore_ascii_case, eq_ignore_ascii_case_spec};

verus! {

/// Where a message request stands.
#[derive(Debug, Clone, Copy, PartialEq, Eq, Structural)]
pub enum RequestStatus {
    Pending,
    Accepted,
    Rejected,
}

/// The label that `Display` writes for a status.
pub open spec fn request_status_label(s: RequestStatus) -> Seq<char> {
    match s {
        RequestStatus::Pending => "PENDING"@,
        RequestStatus::Accepted => "ACCEPTED"@,
        RequestStatus::Rejected => "REJECTED"@,
    }
}

impl RequestStatus {
    /// The text that `Display` writes for this status.
    pub fn as_str(&self) -> (s: &'static str)
        ensures
            s@ == request_status_label(*self),
    {
        match self {
            RequestStatus::Pending => "PENDING",
            RequestStatus::Accepted => "ACCEPTED",
            RequestStatus::Rejected => "REJECTED",
        }
    }
}

/// The kinds of request.
#[derive(Debug, Clone, Copy, PartialEq, Eq, Structural)]
pub enum RequestType {
    MessageRequest,
}

/// A request from a user to start a conversation.
#[derive(Debug)]
pub struct MessageRequest {
    pub id: u128,
    pub username: String,
    pub status: RequestStatus,
    pub created_at: UtcTime,
}

impl Clone for MessageRequest {
    fn clone(&self) -> (r: Self)
        ensures
            r == *self,
    {
        MessageRequest { id: self.id, username: self.username.clone(), status: self.status, created_at: self.created_at }
    }
}

/// A pending request from `user` (up to ASCII case).
pub open spec fn is_pending_for(r: MessageRequest, user: Seq<char>) -> bool {
    eq_ignore_ascii_case_spec(r.username@, user) && r.status == RequestStatus::Pending
}

/// Some request of `s` is pending for `user`.
pub open spec fn has_pending_for(s: Seq<MessageRequest>, user: Seq<char>) -> bool {
    exists|k: int| 0 <= k < s.len() && #[trigger] is_pending_for(s[k], user)
}

/// `k` indexes the first request of `s` pending for `user`.
pub open spec fn first_pending_for(s: Seq<MessageRequest>, user: Seq<char>, k: int) -> bool {
    &&& 0 <= k < s.len()
    &&& is_pending_for(s[k], user)
    &&& forall|k2: int| 0 <= k2 < k ==> !#[trigger] is_pending_for(s[k2], user)
}

/// `r` with the status `status`.
pub open spec fn with_request_status(r: MessageRequest, status: RequestStatus) -> MessageRequest {
    MessageRequest { status: status, ..r }
}

/// What settling the request of `user` with `status` does: the first pending
/// request of that user takes the status and is returned; without one the
/// requests stay as they are and the call is refused.
pub open spec fn settled(
    s: Seq<MessageRequest>,
    t: Seq<MessageRequest>,
    user: Seq<char>,
    status: RequestStatus,
    res: Result<MessageRequest, MessengerError>,
) -> bool {
    if has_pending_for(s, user) {
        exists|k: int| #[trigger] first_pending_for(s, user, k) && t == s.update(k, with_request_status(s[k], status))
            && res == Ok::<MessageRequest, MessengerError>(t[k])
    } else {
        t == s && res == Err::<MessageRequest, MessengerError>(MessengerError::NoPendingRequest)
    }
}

fn find_pending(requests: &Vec<MessageRequest>, username: &str) -> (r: Option<usize>)
    ensures
        match r {
            Some(k) => first_pending_for(requests@, username@, k as int),
            None => !has_pending_for(requests@, username@),
        },
{
    let n = requests.len();
    let mut k: usize = 0;
    while k < n
        invariant
            n == requests@.len(),
            k <= n,
            forall|k2: int| 0 <= k2 < k ==> !#[trigger] is_pending_for(requests@[k2], username@),
        decreases n - k,
    {
        if requests[k].status == RequestStatus::Pending && eq_ignore_ascii_case(requests[k].username.as_str(), username) {
            return Some(k);
        }
        k = k + 1;
    }
    None
}

/// Records a new pending request from `username`, refused while one is pending
/// for that user (up to ASCII case).
pub fn add_request(username: &str, requests: &mut Vec<MessageRequest>) -> (res: Result<MessageRequest, MessengerError>)
    ensures
        has_pending_for(old(requests)@, username@) ==> res == Err::<MessageRequest, MessengerError>(MessengerError::PendingRequestExists)
            && final(requests)@ == old(requests)@,
        !has_pending_for(old(requests)@, username@) ==> (res matches Ok(r) && {
            &&& is_v4_uuid(r.id)
            &&& r.username@ == username@
            &&& r.status == RequestStatus::Pending
            &&& chrono_accepts(r.created_at)
            &&& final(requests)@ == old(requests)@.push(r)
        }),
{
    if find_pending(requests, username).is_some() {
        return Err(MessengerError::PendingRequestExists);
    }
    let request = MessageRequest {
        id: new_uuid(),
        username: String::from_str(username),
        status: RequestStatus::Pending,
        created_at: now_utc(),
    };
    requests.push(request.clone());
    Ok(request)
}

fn settle_request(username: &str, requests: &mut Vec<MessageRequest>, status: RequestStatus) -> (res: Result<MessageRequest, MessengerError>)
    ensures
        settled(old(requests)@, final(requests)@, username@, status, res),
{
    match find_pending(requests, username) {
        None => Err(MessengerError::NoPendingRequest),
        Some(k) => {
            let ghost before = requests@;
            requests[k].status = status;
            proof {
                assert(requests@ =~= before.update(k as int, with_request_status(before[k as int], status)));
            }
            Ok(requests[k].clone())
        },
    }
}

/// Accepts the first pending request from `username` (up to ASCII case).
pub fn accept_request(username: &str, requests: &mut Vec<MessageRequest>) -> (res: Result<MessageRequest, MessengerError>)
    ensures
        settled(old(requests)@, final(requests)@, username@, RequestStatus::Accepted, res),
{
    settle_request(username, requests, RequestStatus::Accepted)
}

/// Rejects the first pending request from `username` (up to ASCII case).
pub fn reject_request(username: &str, requests: &mut Vec<MessageRequest>) -> (res: Result<MessageRequest, MessengerError>)
    ensures
        settled(old(requests)@, final(requests)@, username@, RequestStatus::Rejected, res),
{
    settle_request(username, requests, RequestStatus::Rejected)
}

/// Once a request from a user is added, a second one from that user is refused
/// while the first is pending, and accepting or rejecting that user's request
/// settles exactly the added one.
pub proof fn lemma_settle_after_add(s: Seq<MessageRequest>, r: MessageRequest, user: Seq<char>)
    requires
        !has_pending_for(s, user),
        r.username@ == user,
        r.status == RequestStatus::Pending,
    ensures
        has_pending_for(s.push(r), user),
        first_pending_for(s.push(r), user, s.len() as int),
{
    let t = s.push(r);
    assert(t[s.len() as int] == r);
    assert(is_pending_for(r, user));
    assert forall|k2: int| 0 <= k2 < s.len() implies !#[trigger] is_pending_for(t[k2], user) by {
        assert(t[k2] == s[k2]);
    }
}

} // verus!
