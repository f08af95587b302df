//! Creating, answering and completing connection offers.
use vstd::prelude::*;
use crate::error::MessengerError;
use crate::handshake::answer::ConnectionAnswer;
use crate::handshake::negotiation::HandshakeSession;
use crate::handshake::offer::{ConnectionOffer, same_offer};
use crate::network::candidate::{CandidateType, IceCandidate};
use crate::peer::capabilities::PeerCapabilities;
use crate::session::models::Session;
use crate::stamp::{is_stamp, is_v4_uuid, new_uuid, now_rfc3339, uuid_hyphenated, uuid_to_string, is_uuid_char};
use crate::text::{is_blank, is_blank_spec, is_white_space, str_eq};

verus! {

/// Creates, answers and completes connection offers.
pub struct HandshakeManager;

/// What validating an offer gives: the first blank field among offer id,
/// sender and recipient is refused.
pub open spec fn offer_check(o: ConnectionOffer) -> Result<(), MessengerError> {
    if is_blank_spec(o.offer_id@) {
        Err(MessengerError::OfferIdEmpty)
    } else if is_blank_spec(o.sender@) {
        Err(MessengerError::OfferSenderEmpty)
    } else if is_blank_spec(o.recipient@) {
        Err(MessengerError::OfferRecipientEmpty)
    } else {
        Ok(())
    }
}

/// `k` indexes the first handshake of `s` whose offer has id `id`.
pub open spec fn first_with_offer_id(s: Seq<HandshakeSession>, id: Seq<char>, k: int) -> bool {
    &&& 0 <= k < s.len()
    &&& s[k].offer.offer_id@ == id
    &&& forall|k2: int| 0 <= k2 < k ==> #[trigger] s[k2].offer.offer_id@ != id
}

/// Some handshake of `s` has an offer with id `id`.
pub open spec fn has_offer_id(s: Seq<HandshakeSession>, id: Seq<char>) -> bool {
    exists|k: int| 0 <= k < s.len() && #[trigger] s[k].offer.offer_id@ == id
}

/// `t` is `s` with the handshake at `k` given `answer` and the status `status`.
pub open spec fn answered_at(
    s: Seq<HandshakeSession>,
    t: Seq<HandshakeSession>,
    k: int,
    answer: ConnectionAnswer,
    status: Seq<char>,
) -> bool {
    &&& t.len() == s.len()
    &&& t[k].offer == s[k].offer
    &&& t[k].answer == Some(answer)
    &&& t[k].status@ == status
    &&& forall|k2: int| 0 <= k2 < s.len() && k2 != k ==> #[trigger] t[k2] == s[k2]
}

/// `t` is `s` after recording `answer` to `offer` with `status`: the first
/// handshake of the same offer id is updated, or a new one is appended.
pub open spec fn recorded(
    s: Seq<HandshakeSession>,
    t: Seq<HandshakeSession>,
    offer: ConnectionOffer,
    answer: ConnectionAnswer,
    status: Seq<char>,
) -> bool {
    if has_offer_id(s, offer.offer_id@) {
        exists|k: int| first_with_offer_id(s, offer.offer_id@, k) && answered_at(s, t, k, answer, status)
    } else {
        &&& t.len() == s.len() + 1
        &&& t.take(s.len() as int) == s
        &&& t.last().offer == offer
        &&& t.last().answer == Some(answer)
        &&& t.last().status@ == status
    }
}

/// Once an answer to an offer is recorded, a handshake with that offer id is
/// kept, and the first such handshake holds that answer with that status: a
/// later lookup of the offer finds what was recorded.
pub proof fn lemma_recorded_answer_found(
    s: Seq<HandshakeSession>,
    t: Seq<HandshakeSession>,
    offer: ConnectionOffer,
    answer: ConnectionAnswer,
    status: Seq<char>,
)
    requires
        recorded(s, t, offer, answer, status),
    ensures
        has_offer_id(t, offer.offer_id@),
        exists|k: int| first_with_offer_id(t, offer.offer_id@, k) && t[k].answer == Some(answer) && t[k].status@ == status,
{
    if has_offer_id(s, offer.offer_id@) {
        let k = choose|k: int| first_with_offer_id(s, offer.offer_id@, k) && answered_at(s, t, k, answer, status);
        assert(t[k].offer == s[k].offer);
        assert forall|k2: int| 0 <= k2 < k implies #[trigger] t[k2].offer.offer_id@ != offer.offer_id@ by {
            assert(t[k2] == s[k2]);
        }
        assert(first_with_offer_id(t, offer.offer_id@, k));
    } else {
        let k = s.len() as int;
        assert forall|k2: int| 0 <= k2 < k implies #[trigger] t[k2].offer.offer_id@ != offer.offer_id@ by {
            assert(t.take(k)[k2] == t[k2]);
        }
        assert(first_with_offer_id(t, offer.offer_id@, k));
    }
}

/// The index of the first handshake whose offer id is `id`, if any.
fn find_offer(handshakes: &Vec<HandshakeSession>, id: &str) -> (r: Option<usize>)
    ensures
        match r {
            Some(k) => first_with_offer_id(handshakes@, id@, k as int),
            None => !has_offer_id(handshakes@, id@),
        },
{
    let n = handshakes.len();
    let mut k: usize = 0;
    while k < n
        invariant
            n == handshakes@.len(),
            k <= n,
            forall|k2: int| 0 <= k2 < k ==> #[trigger] handshakes@[k2].offer.offer_id@ != id@,
        decreases n - k,
    {
        if str_eq(handshakes[k].offer.offer_id.as_str(), id) {
            return Some(k);
        }
        k = k + 1;
    }
    None
}

/// Records `answer` to `offer` with `status`, updating the first handshake of
/// the same offer id or appending a new one.
fn record_answer(
    handshakes: &mut Vec<HandshakeSession>,
    offer: ConnectionOffer,
    answer: ConnectionAnswer,
    status: &str,
)
    ensures
        recorded(old(handshakes)@, final(handshakes)@, offer, answer, status@),
{
    match find_offer(handshakes, offer.offer_id.as_str()) {
        Some(k) => {
            handshakes[k].answer = Some(answer);
            handshakes[k].status = String::from_str(status);
        },
        None => {
            let ghost before = handshakes@;
            handshakes.push(
                HandshakeSession { offer, answer: Some(answer), status: String::from_str(status) },
            );
            proof {
                assert(handshakes@.take(before.len() as int) =~= before);
            }
        },
    }
}

impl HandshakeManager {
    /// Refuses an offer whose offer id, sender or recipient is blank, in that order.
    pub fn validate_offer(offer: &ConnectionOffer) -> (res: Result<(), MessengerError>)
        ensures
            res == offer_check(*offer),
    {
        if is_blank(offer.offer_id.as_str()) {
            return Err(MessengerError::OfferIdEmpty);
        }
        if is_blank(offer.sender.as_str()) {
            return Err(MessengerError::OfferSenderEmpty);
        }
        if is_blank(offer.recipient.as_str()) {
            return Err(MessengerError::OfferRecipientEmpty);
        }
        Ok(())
    }

    /// Makes an offer to `recipient` from the current session's user, with a
    /// fresh random offer id, and records it as a `PENDING` handshake. A blank
    /// sender or recipient is refused and nothing is recorded.
    pub fn create_offer(
        recipient: &str,
        candidates: Vec<IceCandidate>,
        session: &Session,
        capabilities: PeerCapabilities,
        handshakes: &mut Vec<HandshakeSession>,
    ) -> (res: Result<ConnectionOffer, MessengerError>)
        ensures
            is_blank_spec(session.username@) ==> res == Err::<ConnectionOffer, MessengerError>(
                MessengerError::OfferSenderEmpty,
            ),
            !is_blank_spec(session.username@) && is_blank_spec(recipient@) ==> res == Err::<
                ConnectionOffer,
                MessengerError,
            >(MessengerError::OfferRecipientEmpty),
            res is Err ==> final(handshakes)@ == old(handshakes)@,
            !is_blank_spec(session.username@) && !is_blank_spec(recipient@) ==> res is Ok,
            res matches Ok(o) ==> {
                &&& offer_check(o) is Ok
                &&& (exists|id: u128| is_v4_uuid(id) && o.offer_id@ == uuid_hyphenated(id))
                &&& o.sender@ == session.username@
                &&& o.recipient@ == recipient@
                &&& o.session_id@ == session.session_id@
                &&& o.candidates == candidates
                &&& o.capabilities == capabilities
                &&& is_stamp(o.timestamp@)
                &&& final(handshakes)@.len() == old(handshakes)@.len() + 1
                &&& final(handshakes)@.take(old(handshakes)@.len() as int) == old(handshakes)@
                &&& same_offer(final(handshakes)@.last().offer, o)
                &&& final(handshakes)@.last().answer is None
                &&& final(handshakes)@.last().status@ == "PENDING"@
            },
    {
        let id = new_uuid();
        let offer_id = uuid_to_string(id);
        let offer = ConnectionOffer {
            offer_id,
            sender: session.username.clone(),
            recipient: String::from_str(recipient),
            session_id: session.session_id.clone(),
            candidates,
            capabilities,
            timestamp: now_rfc3339(),
        };
        proof {
            assert(!is_white_space(offer.offer_id@[0])) by {
                assert(is_uuid_char(offer.offer_id@[0]));
            }
        }
        Self::validate_offer(&offer)?;
        let ghost before = handshakes@;
        handshakes.push(
            HandshakeSession {
                offer: offer.clone(),
                answer: None,
                status: String::from_str("PENDING"),
            },
        );
        proof {
            assert(handshakes@.take(before.len() as int) =~= before);
        }
        Ok(offer)
    }

    /// Accepts a valid offer with the chosen candidate and records the handshake
    /// as `ACCEPTED`; an invalid offer is refused and nothing is recorded.
    pub fn accept_offer(
        offer: ConnectionOffer,
        selected_candidate: IceCandidate,
        capabilities: PeerCapabilities,
        handshakes: &mut Vec<HandshakeSession>,
    ) -> (res: Result<ConnectionAnswer, MessengerError>)
        ensures
            offer_check(offer) is Err ==> res == Err::<ConnectionAnswer, MessengerError>(
                offer_check(offer)->Err_0,
            ) && final(handshakes)@ == old(handshakes)@,
            offer_check(offer) is Ok ==> (res matches Ok(a) && {
                &&& a.offer_id == offer.offer_id
                &&& a.accepted
                &&& a.selected_candidate == selected_candidate
                &&& a.capabilities == capabilities
                &&& is_stamp(a.timestamp@)
                &&& recorded(old(handshakes)@, final(handshakes)@, offer, a, "ACCEPTED"@)
            }),
    {
        Self::validate_offer(&offer)?;
        let answer = ConnectionAnswer {
            offer_id: offer.offer_id.clone(),
            accepted: true,
            selected_candidate,
            capabilities,
            timestamp: now_rfc3339(),
        };
        record_answer(handshakes, offer, answer.clone(), "ACCEPTED");
        Ok(answer)
    }

    /// Rejects a valid offer, answering with an empty candidate, and records the
    /// handshake as `REJECTED`; an invalid offer is refused and nothing is recorded.
    pub fn reject_offer(
        offer: ConnectionOffer,
        capabilities: PeerCapabilities,
        handshakes: &mut Vec<HandshakeSession>,
    ) -> (res: Result<ConnectionAnswer, MessengerError>)
        ensures
            offer_check(offer) is Err ==> res == Err::<ConnectionAnswer, MessengerError>(
                offer_check(offer)->Err_0,
            ) && final(handshakes)@ == old(handshakes)@,
            offer_check(offer) is Ok ==> (res matches Ok(a) && {
                &&& a.offer_id == offer.offer_id
                &&& !a.accepted
                &&& a.selected_candidate.foundation@.len() == 0
                &&& a.selected_candidate.component == 0
                &&& a.selected_candidate.transport@.len() == 0
                &&& a.selected_candidate.priority == 0
                &&& a.selected_candidate.address@.len() == 0
                &&& a.selected_candidate.port == 0
                &&& a.selected_candidate.candidate_type == CandidateType::Host
                &&& a.capabilities == capabilities
                &&& is_stamp(a.timestamp@)
                &&& recorded(old(handshakes)@, final(handshakes)@, offer, a, "REJECTED"@)
            }),
    {
        Self::validate_offer(&offer)?;
        let answer = ConnectionAnswer {
            offer_id: offer.offer_id.clone(),
            accepted: false,
            selected_candidate: IceCandidate {
                foundation: String::new(),
                component: 0,
                transport: String::new(),
                priority: 0,
                address: String::new(),
                port: 0,
                candidate_type: CandidateType::Host,
            },
            capabilities,
            timestamp: now_rfc3339(),
        };
        record_answer(handshakes, offer, answer.clone(), "REJECTED");
        Ok(answer)
    }

    /// Records a peer's answer on the first handshake with offer id `offer_id`:
    /// `ACCEPTED` if the answer accepts, `REJECTED` if not. An unknown offer id
    /// is refused and nothing changes.
    pub fn complete_handshake(
        offer_id: &str,
        answer: ConnectionAnswer,
        handshakes: &mut Vec<HandshakeSession>,
    ) -> (res: Result<(), MessengerError>)
        ensures
            !has_offer_id(old(handshakes)@, offer_id@) ==> res == Err::<(), MessengerError>(
                MessengerError::HandshakeNotFound,
            ) && final(handshakes)@ == old(handshakes)@,
            has_offer_id(old(handshakes)@, offer_id@) ==> res is Ok && exists|k: int|
                first_with_offer_id(old(handshakes)@, offer_id@, k) && answered_at(
                    old(handshakes)@,
                    final(handshakes)@,
                    k,
                    answer,
                    if answer.accepted { "ACCEPTED"@ } else { "REJECTED"@ },
                ),
    {
        match find_offer(handshakes, offer_id) {
            None => Err(MessengerError::HandshakeNotFound),
            Some(k) => {
                let status = if answer.accepted {
                    String::from_str("ACCEPTED")
                } else {
                    String::from_str("REJECTED")
                };
                handshakes[k].answer = Some(answer);
                handshakes[k].status = status;
                Ok(())
            },
        }
    }
}

} // verus!
