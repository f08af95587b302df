//! What the listener does with an incoming packet, and on which port it listens.
use vstd::prelude::*;
use sha2::Digest;
use vstd::utf8::encode_utf8;
use crate::chat::models::{Direction, Message, MessageStatus, MessageType};
use crate::error::MessengerError;
use crate::messaging::payload::{open_message_payload, opened_payload, sealed_payload};
use crate::secure::exchange::sealable;
use crate::messaging::sender::{ack_payload_json, message_id_payload};
use crate::network::endpoints::{DEFAULT_PORT, is_loopback_address, is_loopback_host, loopback_ports, loopback_ports_spec};
use crate::protocol::packet::{Packet, PacketType, is_outgoing};
use crate::punch::probe::{build_ack_packet, probe_payload_json};
use crate::punch::session::PunchSession;
use crate::punch::state::PunchState;
use crate::secure::session::SecureSession;
use crate::stamp::{chrono_accepts, is_stamp, is_v4_uuid, now_utc};
use crate::text::{eq_ignore_ascii_case, eq_ignore_ascii_case_spec, str_eq};

verus! {

/// Listens for incoming packets.
pub struct MessageListener;

/// Name of the SHA-256 digest of `data`.
pub uninterp spec fn sha256_digest(data: Seq<u8>) -> Seq<u8>;

/// Calls `sha2::Sha256::digest`; the digest is named.
#[verifier::external_body]
fn sha256(data: &[u8]) -> (h: [u8; 32])
    ensures
        h@ == sha256_digest(data@),
{
    sha2::Sha256::digest(data).into()
}

/// The key of a secure session: the SHA-256 digest of its id's UTF-8 bytes.
pub open spec fn session_key(session_id: Seq<char>) -> Seq<u8> {
    sha256_digest(encode_utf8(session_id))
}

/// The message key of the secure session `session_id`.
pub fn get_secure_session_key(session_id: &str) -> (key: [u8; 32])
    ensures
        key@ == session_key(session_id@),
{
    sha256(session_id.as_bytes())
}

/// `k` indexes the first established session of `s`.
pub open spec fn first_established(s: Seq<PunchSession>, k: int) -> bool {
    &&& 0 <= k < s.len()
    &&& s[k].state == PunchState::Established
    &&& forall|k2: int| 0 <= k2 < k ==> #[trigger] s[k2].state != PunchState::Established
}

/// The port to listen on for an established session: the loopback port of this
/// side when either end names this machine or both ends are one address, else
/// the pair's local port.
pub open spec fn listen_port_for(me: Seq<char>, s: PunchSession) -> u16 {
    let p = s.selected_pair;
    if p.local.address@ == p.remote.address@ || is_loopback_host(p.local.address@) || is_loopback_host(p.remote.address@) {
        loopback_ports_spec(me, s.peer@).0
    } else {
        p.local.port
    }
}

/// The port on which `me` listens: that of the first established hole-punching
/// session, or the default port when none is established.
pub fn get_listener_port(me: &str, punch_sessions: &[PunchSession]) -> (port: u16)
    ensures
        (forall|k: int| 0 <= k < punch_sessions@.len() ==> #[trigger] punch_sessions@[k].state != PunchState::Established) ==> port == DEFAULT_PORT,
        forall|k: int| first_established(punch_sessions@, k) ==> port == listen_port_for(me@, punch_sessions@[k]),
{
    let n = punch_sessions.len();
    let mut k: usize = 0;
    while k < n
        invariant
            n == punch_sessions@.len(),
            k <= n,
            forall|k2: int| 0 <= k2 < k ==> #[trigger] punch_sessions@[k2].state != PunchState::Established,
        decreases n - k,
    {
        if punch_sessions[k].state == PunchState::Established {
            let s = &punch_sessions[k];
            let local = s.selected_pair.local.address.as_str();
            let remote = s.selected_pair.remote.address.as_str();
            proof {
                assert(first_established(punch_sessions@, k as int));
            }
            if str_eq(local, remote) || is_loopback_address(local) || is_loopback_address(remote) {
                return loopback_ports(me, s.peer.as_str()).0;
            } else {
                return s.selected_pair.local.port;
            }
        }
        k = k + 1;
    }
    DEFAULT_PORT
}

/// The fields that incoming payloads may carry, as read from their JSON; a
/// field is absent when the payload lacks it or holds something else there.
#[derive(Debug)]
pub struct PayloadFields {
    pub message_id: Option<u128>,
    pub sender: Option<String>,
    pub recipient: Option<String>,
    pub encrypted_payload: Option<String>,
    pub timestamp: Option<String>,
    pub session_id: Option<String>,
}

/// What the listener does with an incoming packet.
#[derive(Debug)]
pub enum IncomingAction {
    /// Store `message` in the conversation with `peer` and send `ack` back.
    Deliver { peer: String, message: Message, ack: Packet },
    /// Give the message `message_id` of the conversation with `peer` the status `status`.
    SetStatus { peer: String, message_id: u128, status: MessageStatus },
    /// Send this packet back to where the incoming one came from.
    Reply(Packet),
    /// Mark the hole-punching session with `peer` established.
    EstablishPunch { peer: String },
    /// Nothing to do.
    Ignore,
}

/// `k` indexes the first secure session of `s` with `peer`, up to ASCII case.
pub open spec fn first_secure_for(s: Seq<SecureSession>, peer: Seq<char>, k: int) -> bool {
    &&& 0 <= k < s.len()
    &&& eq_ignore_ascii_case_spec(s[k].peer@, peer)
    &&& forall|k2: int| 0 <= k2 < k ==> !eq_ignore_ascii_case_spec(#[trigger] s[k2].peer@, peer)
}

/// Some secure session of `s` is with `peer`, up to ASCII case.
pub open spec fn has_secure_for(s: Seq<SecureSession>, peer: Seq<char>) -> bool {
    exists|k: int| 0 <= k < s.len() && eq_ignore_ascii_case_spec(#[trigger] s[k].peer@, peer)
}

/// The index of the first secure session with `peer`, up to ASCII case.
pub fn find_secure_session(sessions: &[SecureSession], peer: &str) -> (r: Option<usize>)
    ensures
        match r {
            Some(k) => first_secure_for(sessions@, peer@, k as int),
            None => !has_secure_for(sessions@, peer@),
        },
{
    let n = sessions.len();
    let mut k: usize = 0;
    while k < n
        invariant
            n == sessions@.len(),
            k <= n,
            forall|k2: int| 0 <= k2 < k ==> !eq_ignore_ascii_case_spec(#[trigger] sessions@[k2].peer@, peer@),
        decreases n - k,
    {
        if eq_ignore_ascii_case(sessions[k].peer.as_str(), peer) {
            return Some(k);
        }
        k = k + 1;
    }
    None
}

/// The chat message that a decrypted incoming message becomes: received,
/// delivered, plain text.
pub open spec fn is_received_message(m: Message, id: u128, content: Seq<char>) -> bool {
    &&& m.id == id
    &&& m.direction == Direction::Incoming
    &&& m.status == MessageStatus::Delivered
    &&& m.message_type == MessageType::Text
    &&& m.content@ == content
    &&& m.signature is None
    &&& m.reply_to is None
    &&& chrono_accepts(m.timestamp)
}

/// Whatever content was sealed into `enc` under `key`, with any nonce, is the
/// content of the delivered message.
pub open spec fn delivers_sealed(key: Seq<u8>, enc: Seq<char>, res: Result<IncomingAction, MessengerError>) -> bool {
    forall|nonce: Seq<u8>, content: Seq<char>|
        #![trigger sealed_payload(key, nonce, content)]
        nonce.len() == 12 && sealable(encode_utf8(content).len()) && sealed_payload(key, nonce, content) == enc
            ==> (res matches Ok(IncomingAction::Deliver { message, .. }) && message.content@ == content)
}

/// The outcome for a chat message packet: the payload must hold all its
/// fields; the content is decrypted with the key of the first secure session
/// with the sender, and delivered with an acknowledgement back to the sender.
pub open spec fn message_outcome(
    packet: &Packet,
    fields: Option<&PayloadFields>,
    secure: Seq<SecureSession>,
    res: Result<IncomingAction, MessengerError>,
) -> bool {
    match fields {
        None => res == Err::<IncomingAction, MessengerError>(MessengerError::PayloadMalformed),
        Some(f) => match (f.message_id, f.sender, f.recipient, f.encrypted_payload, f.timestamp) {
            (Some(id), Some(from), Some(to), Some(enc), Some(_)) => if !has_secure_for(secure, from@) {
                res == Err::<IncomingAction, MessengerError>(MessengerError::SecureSessionNotFound)
            } else {
                exists|k: int| #[trigger] first_secure_for(secure, from@, k) && (match opened_payload(session_key(secure[k].session_id@), enc@) {
                    Err(e) => res == Err::<IncomingAction, MessengerError>(e),
                    Ok(content) => match res {
                        Ok(IncomingAction::Deliver { peer, message, ack }) => {
                            &&& peer@ == from@
                            &&& is_received_message(message, id, content)
                            &&& is_outgoing(ack, PacketType::MessageAck, to@, from@, ack_payload_json(id), "message-ack"@)
                        },
                        _ => false,
                    },
                }) && delivers_sealed(session_key(secure[k].session_id@), enc@, res)
            },
            _ => res == Err::<IncomingAction, MessengerError>(MessengerError::PayloadMalformed),
        },
    }
}

/// The outcome for an acknowledgement or read receipt: the named message of
/// the sender's conversation becomes delivered or read.
pub open spec fn status_outcome(packet: &Packet, fields: Option<&PayloadFields>, res: Result<IncomingAction, MessengerError>) -> bool {
    match fields {
        Some(f) if f.message_id is Some => match res {
            Ok(IncomingAction::SetStatus { peer, message_id, status }) => {
                &&& peer@ == packet.sender@
                &&& message_id == f.message_id->Some_0
                &&& status == (if packet.packet_type == PacketType::MessageAck { MessageStatus::Delivered } else { MessageStatus::Read })
            },
            _ => false,
        },
        _ => res matches Ok(IncomingAction::Ignore),
    }
}

/// The outcome for a connectivity check: the current user answers it.
pub open spec fn check_outcome(packet: &Packet, me: Option<&str>, res: Result<IncomingAction, MessengerError>) -> bool {
    match me {
        None => res == Err::<IncomingAction, MessengerError>(MessengerError::NoSession),
        Some(u) => match res {
            Ok(IncomingAction::Reply(p)) => is_outgoing(p, PacketType::ConnectivityResponse, u@, packet.sender@, Seq::empty(), "connectivity-response"@),
            _ => false,
        },
    }
}

/// The outcome for a probe: when it names a session, the current user
/// acknowledges it.
pub open spec fn probe_outcome(packet: &Packet, fields: Option<&PayloadFields>, me: Option<&str>, res: Result<IncomingAction, MessengerError>) -> bool {
    match fields {
        Some(f) if f.session_id is Some => match me {
            None => res == Err::<IncomingAction, MessengerError>(MessengerError::NoSession),
            Some(u) => match res {
                Ok(IncomingAction::Reply(p)) => exists|ts: Seq<char>| is_stamp(ts) &&
                    is_outgoing(p, PacketType::PunchAck, u@, packet.sender@, probe_payload_json(f.session_id->Some_0@, u@, ts), "punch-ack"@),
                _ => false,
            },
        },
        _ => res matches Ok(IncomingAction::Ignore),
    }
}

/// The outcome for an acknowledgement of a probe: when it names a session,
/// the hole-punching session with the sender is established.
pub open spec fn punch_ack_outcome(packet: &Packet, fields: Option<&PayloadFields>, res: Result<IncomingAction, MessengerError>) -> bool {
    match fields {
        Some(f) if f.session_id is Some => match res {
            Ok(IncomingAction::EstablishPunch { peer }) => peer@ == packet.sender@,
            _ => false,
        },
        _ => res matches Ok(IncomingAction::Ignore),
    }
}

/// There is only one first secure session with a peer.
proof fn lemma_first_secure_unique(s: Seq<SecureSession>, peer: Seq<char>, k1: int, k2: int)
    requires
        first_secure_for(s, peer, k1),
        first_secure_for(s, peer, k2),
    ensures
        k1 == k2,
{
    if k1 < k2 {
        assert(!eq_ignore_ascii_case_spec(s[k1].peer@, peer));
    } else if k2 < k1 {
        assert(!eq_ignore_ascii_case_spec(s[k2].peer@, peer));
    }
}

/// A chat message whose content the sender sealed under the key of a secure
/// session is delivered with that content, under its id, by a receiver whose
/// first secure session with the sender has the same id; the receiver
/// acknowledges it by id to the sender.
pub proof fn lemma_sealed_message_delivered(
    packet: Packet,
    fields: PayloadFields,
    secure: Seq<SecureSession>,
    res: Result<IncomingAction, MessengerError>,
    session_id: Seq<char>,
    nonce: Seq<u8>,
    content: Seq<char>,
)
    requires
        packet.packet_type == PacketType::Message,
        message_outcome(&packet, Some(&fields), secure, res),
        fields.message_id is Some,
        fields.sender is Some,
        fields.recipient is Some,
        fields.timestamp is Some,
        exists|k: int| first_secure_for(secure, fields.sender->Some_0@, k) && secure[k].session_id@ == session_id,
        nonce.len() == 12,
        sealable(encode_utf8(content).len()),
        fields.encrypted_payload is Some,
        fields.encrypted_payload->Some_0@ == sealed_payload(session_key(session_id), nonce, content),
    ensures
        res matches Ok(IncomingAction::Deliver { peer, message, ack }) && {
            &&& peer@ == fields.sender->Some_0@
            &&& is_received_message(message, fields.message_id->Some_0, content)
            &&& is_outgoing(ack, PacketType::MessageAck, fields.recipient->Some_0@, fields.sender->Some_0@,
                ack_payload_json(fields.message_id->Some_0), "message-ack"@)
        },
{
    let from = fields.sender->Some_0;
    let k = choose|k: int| first_secure_for(secure, from@, k) && secure[k].session_id@ == session_id;
    let key = session_key(session_id);
    let enc = sealed_payload(key, nonce, content);
    assert(has_secure_for(secure, from@));
    let k2 = choose|k2: int| #[trigger] first_secure_for(secure, from@, k2) && (match opened_payload(session_key(secure[k2].session_id@), fields.encrypted_payload->Some_0@) {
        Err(e) => res == Err::<IncomingAction, MessengerError>(e),
        Ok(c) => match res {
            Ok(IncomingAction::Deliver { peer, message, ack }) => {
                &&& peer@ == from@
                &&& is_received_message(message, fields.message_id->Some_0, c)
                &&& is_outgoing(ack, PacketType::MessageAck, fields.recipient->Some_0@, from@, ack_payload_json(fields.message_id->Some_0), "message-ack"@)
            },
            _ => false,
        },
    }) && delivers_sealed(session_key(secure[k2].session_id@), fields.encrypted_payload->Some_0@, res);
    lemma_first_secure_unique(secure, from@, k, k2);
    assert(sealed_payload(key, nonce, content) == enc);
}

impl MessageListener {
    /// Decides what to do with an incoming packet, given the fields of its
    /// payload (none when the payload is not a JSON object), the current user
    /// (none when no session is saved) and the secure sessions:
    /// - a message, whose payload must hold all its fields, is decrypted with
    ///   the key of the first secure session with its sender and delivered,
    ///   with an acknowledgement from its recipient back to its sender;
    /// - an acknowledgement or read receipt naming a message sets that
    ///   message's status to delivered or read;
    /// - a connectivity check is answered by the current user;
    /// - a probe naming a session is acknowledged by the current user;
    /// - an acknowledgement of a probe naming a session establishes the
    ///   hole-punching session with its sender;
    /// - anything else is ignored.
    pub fn handle_packet(
        packet: &Packet,
        fields: Option<&PayloadFields>,
        me: Option<&str>,
        secure_sessions: &[SecureSession],
    ) -> (res: Result<IncomingAction, MessengerError>)
        ensures
            packet.packet_type == PacketType::Message ==> message_outcome(packet, fields, secure_sessions@, res),
            packet.packet_type == PacketType::MessageAck || packet.packet_type == PacketType::MessageRead
                ==> status_outcome(packet, fields, res),
            packet.packet_type == PacketType::ConnectivityCheck ==> check_outcome(packet, me, res),
            packet.packet_type == PacketType::PunchProbe ==> probe_outcome(packet, fields, me, res),
            packet.packet_type == PacketType::PunchAck ==> punch_ack_outcome(packet, fields, res),
            !(packet.packet_type == PacketType::Message || packet.packet_type == PacketType::MessageAck
                || packet.packet_type == PacketType::MessageRead || packet.packet_type == PacketType::ConnectivityCheck
                || packet.packet_type == PacketType::PunchProbe || packet.packet_type == PacketType::PunchAck)
                ==> res matches Ok(IncomingAction::Ignore),
    {
        match packet.packet_type {
            PacketType::Message => {
                let f = match fields {
                    Some(f) => f,
                    None => {
                        return Err(MessengerError::PayloadMalformed);
                    },
                };
                let (id, from, to, enc) = match (f.message_id, &f.sender, &f.recipient, &f.encrypted_payload, &f.timestamp) {
                    (Some(id), Some(from), Some(to), Some(enc), Some(_)) => (id, from, to, enc),
                    _ => {
                        return Err(MessengerError::PayloadMalformed);
                    },
                };
                let k = match find_secure_session(secure_sessions, from.as_str()) {
                    Some(k) => k,
                    None => {
                        return Err(MessengerError::SecureSessionNotFound);
                    },
                };
                let key = get_secure_session_key(secure_sessions[k].session_id.as_str());
                let content = open_message_payload(&key, enc.as_str())?;
                let message = Message {
                    id,
                    direction: Direction::Incoming,
                    timestamp: now_utc(),
                    status: MessageStatus::Delivered,
                    message_type: MessageType::Text,
                    content,
                    signature: None,
                    reply_to: None,
                };
                let ack = Packet::outgoing(
                    PacketType::MessageAck,
                    to.as_str(),
                    from.as_str(),
                    message_id_payload(id),
                    "message-ack",
                );
                Ok(IncomingAction::Deliver { peer: from.clone(), message, ack })
            },
            PacketType::MessageAck | PacketType::MessageRead => {
                let status = if packet.packet_type == PacketType::MessageAck {
                    MessageStatus::Delivered
                } else {
                    MessageStatus::Read
                };
                match fields {
                    Some(f) => match f.message_id {
                        Some(id) => Ok(IncomingAction::SetStatus { peer: packet.sender.clone(), message_id: id, status }),
                        None => Ok(IncomingAction::Ignore),
                    },
                    None => Ok(IncomingAction::Ignore),
                }
            },
            PacketType::ConnectivityCheck => {
                match me {
                    Some(u) => Ok(IncomingAction::Reply(Packet::outgoing(
                        PacketType::ConnectivityResponse,
                        u,
                        packet.sender.as_str(),
                        String::new(),
                        "connectivity-response",
                    ))),
                    None => Err(MessengerError::NoSession),
                }
            },
            PacketType::PunchProbe => {
                let sid = match fields {
                    Some(f) => match &f.session_id {
                        Some(s) => s,
                        None => {
                            return Ok(IncomingAction::Ignore);
                        },
                    },
                    None => {
                        return Ok(IncomingAction::Ignore);
                    },
                };
                match me {
                    Some(u) => {
                        let ack = build_ack_packet(sid.as_str(), u, packet.sender.as_str());
                        match ack {
                            Ok(p) => Ok(IncomingAction::Reply(p)),
                            Err(_) => Ok(IncomingAction::Ignore),
                        }
                    },
                    None => Err(MessengerError::NoSession),
                }
            },
            PacketType::PunchAck => {
                match fields {
                    Some(f) => match &f.session_id {
                        Some(_) => Ok(IncomingAction::EstablishPunch { peer: packet.sender.clone() }),
                        None => Ok(IncomingAction::Ignore),
                    },
                    None => Ok(IncomingAction::Ignore),
                }
            },
            _ => Ok(IncomingAction::Ignore),
        }
    }
}

} // verus!
