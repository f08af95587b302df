//! Preparing outgoing chat messages.
use vstd::prelude::*;
use crate::chat::models::{Direction, Message, MessageStatus, MessageType};
use crate::error::MessengerError;
use crate::ice::pair::CandidatePair;
use crate::messaging::listener::{find_secure_session, first_secure_for, get_secure_session_key, has_secure_for, session_key};
use crate::messaging::payload::{content_fits, random_nonce, seal_message_payload, sealed_payload};
use crate::network::endpoints::{message_ports, message_ports_spec};
use crate::protocol::json::{json_string, push_json_string};
use crate::protocol::packet::{Packet, PacketType, is_outgoing};
use crate::punch::manager::{find_punch_session, first_punch_for, has_punch_for};
use crate::punch::session::PunchSession;
use crate::punch::state::PunchState;
use crate::secure::exchange::sealable;
use crate::secure::session::SecureSession;
use crate::stamp::{chrono_accepts, is_stamp, is_v4_uuid, new_uuid, now_rfc3339, now_utc, rfc3339_of, rfc3339_text, uuid_hyphenated, uuid_to_string};
use vstd::utf8::encode_utf8;

verus! {

/// Sends chat messages.
pub struct MessageSender;

/// The payload of an acknowledgement or read receipt of message `id`.
pub open spec fn ack_payload_json(id: u128) -> Seq<char> {
    "{\"messageId\":"@ + json_string(uuid_hyphenated(id)) + "}"@
}

/// The JSON payload `{"messageId": ...}` naming message `id`.
pub fn message_id_payload(id: u128) -> (s: String)
    ensures
        s@ == ack_payload_json(id),
{
    let mut s = String::from_str("{\"messageId\":");
    let text = uuid_to_string(id);
    push_json_string(&mut s, text.as_str());
    s.append("}");
    s
}

/// The payload of a chat message packet: its fields as JSON, keys in order.
pub open spec fn message_payload_json(
    encrypted: Seq<char>,
    id: u128,
    recipient: Seq<char>,
    sender: Seq<char>,
    timestamp: Seq<char>,
) -> Seq<char> {
    "{\"encryptedPayload\":"@ + json_string(encrypted) + ",\"messageId\":"@ + json_string(uuid_hyphenated(id))
        + ",\"recipient\":"@ + json_string(recipient) + ",\"sender\":"@ + json_string(sender)
        + ",\"timestamp\":"@ + json_string(timestamp) + "}"@
}

/// The payload of a chat message packet.
fn message_payload(encrypted: &str, id: u128, recipient: &str, sender: &str, timestamp: &str) -> (s: String)
    ensures
        s@ == message_payload_json(encrypted@, id, recipient@, sender@, timestamp@),
{
    let mut s = String::from_str("{\"encryptedPayload\":");
    push_json_string(&mut s, encrypted);
    s.append(",\"messageId\":");
    let text = uuid_to_string(id);
    push_json_string(&mut s, text.as_str());
    s.append(",\"recipient\":");
    push_json_string(&mut s, recipient);
    s.append(",\"sender\":");
    push_json_string(&mut s, sender);
    s.append(",\"timestamp\":");
    push_json_string(&mut s, timestamp);
    s.append("}");
    s
}

/// A packet ready to go out over a candidate pair: the packet, the ports to
/// bind and send to, and the two addresses of the pair.
#[derive(Debug)]
pub struct OutgoingMessage {
    pub packet: Packet,
    pub local_port: u16,
    pub remote_port: u16,
    pub local_address: String,
    pub remote_address: String,
}

/// `o` carries `content` as message `id` from `me` to `peer`, encrypted under
/// the key of secure session `session_id` with some nonce, stamped `timestamp`,
/// over `pair`.
pub open spec fn is_message_for(
    o: OutgoingMessage,
    me: Seq<char>,
    peer: Seq<char>,
    id: u128,
    content: Seq<char>,
    timestamp: Seq<char>,
    session_id: Seq<char>,
    pair: CandidatePair,
) -> bool {
    &&& exists|nonce: Seq<u8>| nonce.len() == 12 && is_outgoing(
        o.packet,
        PacketType::Message,
        me,
        peer,
        message_payload_json(sealed_payload(session_key(session_id), nonce, content), id, peer, me, timestamp),
        "message-signature"@,
    )
    &&& (o.local_port, o.remote_port) == message_ports_spec(pair, me, peer)
    &&& o.local_address@ == pair.local.address@
    &&& o.remote_address@ == pair.remote.address@
}

/// Builds the packet of message `id` with `content` from `me` to `peer`.
fn build_message(
    me: &str,
    peer: &str,
    id: u128,
    content: &str,
    timestamp: &str,
    session_id: &str,
    pair: &CandidatePair,
) -> (res: Result<OutgoingMessage, MessengerError>)
    requires
        content_fits(content@),
    ensures
        sealable(encode_utf8(content@).len()) ==> (res matches Ok(o) && is_message_for(o, me@, peer@, id, content@, timestamp@, session_id@, *pair)),
        !sealable(encode_utf8(content@).len()) ==> res == Err::<OutgoingMessage, MessengerError>(MessengerError::EncryptionFailed),
{
    let key = get_secure_session_key(session_id);
    let nonce = random_nonce();
    let encrypted = seal_message_payload(&key, &nonce, content)?;
    let payload = message_payload(encrypted.as_str(), id, peer, me, timestamp);
    let packet = Packet::outgoing(PacketType::Message, me, peer, payload, "message-signature");
    let (local_port, remote_port) = message_ports(pair, me, peer);
    Ok(OutgoingMessage {
        packet,
        local_port,
        remote_port,
        local_address: pair.local.address.clone(),
        remote_address: pair.remote.address.clone(),
    })
}

/// The status a sent message gets: delivered when acknowledged, failed if not.
pub fn delivery_status(ack_received: bool) -> (s: MessageStatus)
    ensures
        s == (if ack_received { MessageStatus::Delivered } else { MessageStatus::Failed }),
{
    if ack_received {
        MessageStatus::Delivered
    } else {
        MessageStatus::Failed
    }
}

impl MessageSender {
    /// A new outgoing text message, queued: fresh random id, current time.
    pub fn queue_message(content: &str) -> (m: Message)
        ensures
            is_v4_uuid(m.id),
            m.direction == Direction::Outgoing,
            m.status == MessageStatus::Queued,
            m.message_type == MessageType::Text,
            m.content@ == content@,
            m.signature is None,
            m.reply_to is None,
            chrono_accepts(m.timestamp),
    {
        Message {
            id: new_uuid(),
            direction: Direction::Outgoing,
            timestamp: now_utc(),
            status: MessageStatus::Queued,
            message_type: MessageType::Text,
            content: String::from_str(content),
            signature: None,
            reply_to: None,
        }
    }

    /// Whether a message can go to `peer`: an established secure session and an
    /// established hole-punching session with it (up to ASCII case), checked in
    /// that order; gives the indexes of both.
    pub fn check_ready(
        peer: &str,
        secure_sessions: &[SecureSession],
        punch_sessions: &[PunchSession],
    ) -> (res: Result<(usize, usize), MessengerError>)
        ensures
            !has_secure_for(secure_sessions@, peer@) ==> res == Err::<(usize, usize), MessengerError>(MessengerError::SecureSessionNotFound),
            has_secure_for(secure_sessions@, peer@) ==> exists|k: int| first_secure_for(secure_sessions@, peer@, k) && {
                ||| !secure_sessions@[k].established && res == Err::<(usize, usize), MessengerError>(MessengerError::SecureSessionNotEstablished)
                ||| secure_sessions@[k].established && !has_punch_for(punch_sessions@, peer@)
                    && res == Err::<(usize, usize), MessengerError>(MessengerError::PunchSessionNotFound)
                ||| secure_sessions@[k].established && exists|j: int| first_punch_for(punch_sessions@, peer@, j) && {
                    ||| punch_sessions@[j].state != PunchState::Established
                        && res == Err::<(usize, usize), MessengerError>(MessengerError::PunchNotEstablished(punch_sessions@[j].state))
                    ||| punch_sessions@[j].state == PunchState::Established && res == Ok::<(usize, usize), MessengerError>((k as usize, j as usize))
                }
            },
    {
        let k = match find_secure_session(secure_sessions, peer) {
            Some(k) => k,
            None => {
                return Err(MessengerError::SecureSessionNotFound);
            },
        };
        if !secure_sessions[k].established {
            return Err(MessengerError::SecureSessionNotEstablished);
        }
        let j = match find_punch_session(punch_sessions, peer) {
            Some(j) => j,
            None => {
                return Err(MessengerError::PunchSessionNotFound);
            },
        };
        if punch_sessions[j].state != PunchState::Established {
            return Err(MessengerError::PunchNotEstablished(punch_sessions[j].state));
        }
        Ok((k, j))
    }

    /// Prepares a queued message for `peer`: encrypted under the key of the
    /// secure session, stamped with the message's own time, over the
    /// hole-punched pair, with the ports that `me` uses towards `peer`.
    pub fn prepare_send(
        me: &str,
        peer: &str,
        message: &Message,
        secure_session: &SecureSession,
        punch_session: &PunchSession,
    ) -> (res: Result<OutgoingMessage, MessengerError>)
        requires
            content_fits(message.content@),
        ensures
            !chrono_accepts(message.timestamp) ==> res == Err::<OutgoingMessage, MessengerError>(MessengerError::TimestampOutOfRange),
            chrono_accepts(message.timestamp) && !sealable(encode_utf8(message.content@).len())
                ==> res == Err::<OutgoingMessage, MessengerError>(MessengerError::EncryptionFailed),
            chrono_accepts(message.timestamp) && sealable(encode_utf8(message.content@).len()) ==> (res matches Ok(o)
                && is_message_for(o, me@, peer@, message.id, message.content@,
                rfc3339_text(message.timestamp.secs, message.timestamp.nanos), secure_session.session_id@, punch_session.selected_pair)),
    {
        let timestamp = match rfc3339_of(&message.timestamp) {
            Some(t) => t,
            None => {
                return Err(MessengerError::TimestampOutOfRange);
            },
        };
        build_message(me, peer, message.id, message.content.as_str(), timestamp.as_str(),
            secure_session.session_id.as_str(), &punch_session.selected_pair)
    }

    /// Whether a failed message can be sent again to `peer`: a secure session
    /// and a hole-punching session with it (up to ASCII case), in that order.
    pub fn check_resend(
        peer: &str,
        secure_sessions: &[SecureSession],
        punch_sessions: &[PunchSession],
    ) -> (res: Result<(usize, usize), MessengerError>)
        ensures
            !has_secure_for(secure_sessions@, peer@) ==> res == Err::<(usize, usize), MessengerError>(MessengerError::SecureSessionNotFound),
            has_secure_for(secure_sessions@, peer@) && !has_punch_for(punch_sessions@, peer@)
                ==> res == Err::<(usize, usize), MessengerError>(MessengerError::PunchSessionNotFound),
            res matches Ok((k, j)) ==> first_secure_for(secure_sessions@, peer@, k as int) && first_punch_for(punch_sessions@, peer@, j as int),
            has_secure_for(secure_sessions@, peer@) && has_punch_for(punch_sessions@, peer@) ==> res is Ok,
    {
        let k = match find_secure_session(secure_sessions, peer) {
            Some(k) => k,
            None => {
                return Err(MessengerError::SecureSessionNotFound);
            },
        };
        let j = match find_punch_session(punch_sessions, peer) {
            Some(j) => j,
            None => {
                return Err(MessengerError::PunchSessionNotFound);
            },
        };
        Ok((k, j))
    }

    /// Prepares a failed message `id` with `content` to go to `peer` again,
    /// stamped with the current time.
    pub fn prepare_resend(
        me: &str,
        peer: &str,
        id: u128,
        content: &str,
        secure_session: &SecureSession,
        punch_session: &PunchSession,
    ) -> (res: Result<OutgoingMessage, MessengerError>)
        requires
            content_fits(content@),
        ensures
            sealable(encode_utf8(content@).len()) ==> (res matches Ok(o) && exists|ts: Seq<char>| is_stamp(ts) &&
                is_message_for(o, me@, peer@, id, content@, ts, secure_session.session_id@, punch_session.selected_pair)),
            !sealable(encode_utf8(content@).len()) ==> res == Err::<OutgoingMessage, MessengerError>(MessengerError::EncryptionFailed),
    {
        let timestamp = now_rfc3339();
        build_message(me, peer, id, content, timestamp.as_str(), secure_session.session_id.as_str(), &punch_session.selected_pair)
    }

    /// The ids of the sent messages that failed, in order.
    pub fn failed_ids(messages: &[Message]) -> (ids: Vec<u128>)
        ensures
            ids@ == messages@.filter(|m: Message| m.direction == Direction::Outgoing && m.status == MessageStatus::Failed).map_values(|m: Message| m.id),
    {
        let mut ids: Vec<u128> = Vec::new();
        let n = messages.len();
        let mut k: usize = 0;
        while k < n
            invariant
                n == messages@.len(),
                k <= n,
                ids@ == messages@.take(k as int).filter(|m: Message| m.direction == Direction::Outgoing && m.status == MessageStatus::Failed).map_values(|m: Message| m.id),
            decreases n - k,
        {
            proof {
                let pred = |m: Message| m.direction == Direction::Outgoing && m.status == MessageStatus::Failed;
                let f = |m: Message| m.id;
                let e = messages@[k as int];
                let t0 = messages@.take(k as int);
                assert(messages@.take(k + 1) =~= t0.push(e));
                t0.lemma_filter_push(e, pred);
                if pred(e) {
                    t0.filter(pred).lemma_push_map_commute(f, e);
                }
            }
            if messages[k].direction == Direction::Outgoing && messages[k].status == MessageStatus::Failed {
                ids.push(messages[k].id);
            }
            k = k + 1;
        }
        proof {
            assert(messages@.take(n as int) =~= messages@);
        }
        ids
    }
}

} // verus!
