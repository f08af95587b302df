//! The packet that peers exchange over UDP.
use vstd::prelude::*;
use crate::error::MessengerError;
use crate::stamp::{UtcTime, chrono_accepts, is_v4_uuid, lemma_v4_uuid_not_nil, new_uuid, now_utc, uuid_hyphenated, uuid_to_string};
use crate::text::{is_blank, is_blank_spec};

verus! {

/// What a packet is for.
#[derive(Debug, Clone, Copy, PartialEq, Eq, Structural)]
pub enum PacketType {
    Message,
    MessageRequest,
    Ack,
    ReadReceipt,
    Ping,
    Presence,
    FileMetadata,
    FileChunk,
    ConnectivityCheck,
    ConnectivityResponse,
    Keepalive,
    PunchProbe,
    PunchAck,
    MessageAck,
    MessageRead,
}

/// The label that `Display` writes for a packet type.
pub open spec fn packet_type_label(t: PacketType) -> Seq<char> {
    match t {
        PacketType::Message => "MESSAGE"@,
        PacketType::MessageRequest => "MESSAGE_REQUEST"@,
        PacketType::Ack => "ACK"@,
        PacketType::ReadReceipt => "READ_RECEIPT"@,
        PacketType::Ping => "PING"@,
        PacketType::Presence => "PRESENCE"@,
        PacketType::FileMetadata => "FILE_METADATA"@,
        PacketType::FileChunk => "FILE_CHUNK"@,
        PacketType::ConnectivityCheck => "CONNECTIVITY_CHECK"@,
        PacketType::ConnectivityResponse => "CONNECTIVITY_RESPONSE"@,
        PacketType::Keepalive => "KEEPALIVE"@,
        PacketType::PunchProbe => "PUNCH_PROBE"@,
        PacketType::PunchAck => "PUNCH_ACK"@,
        PacketType::MessageAck => "MESSAGE_ACK"@,
        PacketType::MessageRead => "MESSAGE_READ"@,
    }
}

impl PacketType {
    /// The text that `Display` writes for this type.
    pub fn as_str(&self) -> (s: &'static str)
        ensures
            s@ == packet_type_label(*self),
    {
        match self {
            PacketType::Message => "MESSAGE",
            PacketType::MessageRequest => "MESSAGE_REQUEST",
            PacketType::Ack => "ACK",
            PacketType::ReadReceipt => "READ_RECEIPT",
            PacketType::Ping => "PING",
            PacketType::Presence => "PRESENCE",
            PacketType::FileMetadata => "FILE_METADATA",
            PacketType::FileChunk => "FILE_CHUNK",
            PacketType::ConnectivityCheck => "CONNECTIVITY_CHECK",
            PacketType::ConnectivityResponse => "CONNECTIVITY_RESPONSE",
            PacketType::Keepalive => "KEEPALIVE",
            PacketType::PunchProbe => "PUNCH_PROBE",
            PacketType::PunchAck => "PUNCH_ACK",
            PacketType::MessageAck => "MESSAGE_ACK",
            PacketType::MessageRead => "MESSAGE_READ",
        }
    }
}

/// A protocol packet; the message id is a UUID held as an integer.
#[derive(Debug)]
pub struct Packet {
    pub version: u32,
    pub packet_type: PacketType,
    pub message_id: u128,
    pub sender: String,
    pub recipient: String,
    pub timestamp: UtcTime,
    pub nonce: String,
    pub encrypted_payload: String,
    pub signature: String,
}

impl Clone for Packet {
    fn clone(&self) -> (r: Self)
        ensures
            r == *self,
    {
        Packet {
            version: self.version,
            packet_type: self.packet_type,
            message_id: self.message_id,
            sender: self.sender.clone(),
            recipient: self.recipient.clone(),
            timestamp: self.timestamp,
            nonce: self.nonce.clone(),
            encrypted_payload: self.encrypted_payload.clone(),
            signature: self.signature.clone(),
        }
    }
}

/// What validating a packet gives: the first broken constraint among version
/// 1, a sender, a recipient, a non-nil message id and a signature.
pub open spec fn packet_check(p: Packet) -> Result<(), MessengerError> {
    if p.version != 1 {
        Err(MessengerError::UnsupportedVersion(p.version))
    } else if is_blank_spec(p.sender@) {
        Err(MessengerError::PacketSenderEmpty)
    } else if is_blank_spec(p.recipient@) {
        Err(MessengerError::PacketRecipientEmpty)
    } else if p.message_id == 0 {
        Err(MessengerError::PacketMessageIdNil)
    } else if is_blank_spec(p.signature@) {
        Err(MessengerError::PacketSignatureEmpty)
    } else {
        Ok(())
    }
}

/// A packet that this client sends: version 1, a fresh random message id and
/// nonce, the current time (an instant that chrono accepts).
pub open spec fn is_outgoing(
    p: Packet,
    packet_type: PacketType,
    sender: Seq<char>,
    recipient: Seq<char>,
    payload: Seq<char>,
    signature: Seq<char>,
) -> bool {
    &&& p.version == 1
    &&& p.packet_type == packet_type
    &&& is_v4_uuid(p.message_id)
    &&& chrono_accepts(p.timestamp)
    &&& p.sender@ == sender
    &&& p.recipient@ == recipient
    &&& (exists|id: u128| is_v4_uuid(id) && p.nonce@ == uuid_hyphenated(id))
    &&& p.encrypted_payload@ == payload
    &&& p.signature@ == signature
}

/// Every packet that this client builds passes validation, provided that its
/// sender, recipient and signature are not blank.
pub proof fn lemma_outgoing_packet_valid(
    p: Packet,
    packet_type: PacketType,
    sender: Seq<char>,
    recipient: Seq<char>,
    payload: Seq<char>,
    signature: Seq<char>,
)
    requires
        is_outgoing(p, packet_type, sender, recipient, payload, signature),
        !is_blank_spec(sender),
        !is_blank_spec(recipient),
        !is_blank_spec(signature),
    ensures
        packet_check(p) == Ok::<(), MessengerError>(()),
{
    lemma_v4_uuid_not_nil(p.message_id);
}

impl Packet {
    /// Checks version, sender, recipient, message id and signature, in that order.
    pub fn validate(&self) -> (res: Result<(), MessengerError>)
        ensures
            res == packet_check(*self),
    {
        if self.version != 1 {
            return Err(MessengerError::UnsupportedVersion(self.version));
        }
        if is_blank(self.sender.as_str()) {
            return Err(MessengerError::PacketSenderEmpty);
        }
        if is_blank(self.recipient.as_str()) {
            return Err(MessengerError::PacketRecipientEmpty);
        }
        if self.message_id == 0 {
            return Err(MessengerError::PacketMessageIdNil);
        }
        if is_blank(self.signature.as_str()) {
            return Err(MessengerError::PacketSignatureEmpty);
        }
        Ok(())
    }

    /// A packet to send from `sender` to `recipient`, with a fresh message id and
    /// nonce and the current time.
    pub fn outgoing(
        packet_type: PacketType,
        sender: &str,
        recipient: &str,
        payload: String,
        signature: &str,
    ) -> (p: Packet)
        ensures
            is_outgoing(p, packet_type, sender@, recipient@, payload@, signature@),
    {
        let nonce_id = new_uuid();
        Packet {
            version: 1,
            packet_type,
            message_id: new_uuid(),
            sender: String::from_str(sender),
            recipient: String::from_str(recipient),
            timestamp: now_utc(),
            nonce: uuid_to_string(nonce_id),
            encrypted_payload: payload,
            signature: String::from_str(signature),
        }
    }
}

} // verus!
