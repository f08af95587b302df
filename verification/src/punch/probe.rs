//! The probe and acknowledgement packets of hole punching.
use vstd::prelude::*;
use crate::error::MessengerError;
use crate::protocol::json::{json_string, push_json_string};
use crate::protocol::packet::{Packet, PacketType, is_outgoing};
use crate::stamp::{is_stamp, now_rfc3339};

verus! {

/// The payload of a probe or acknowledgement: the punching session, its sender
/// and when the packet was made.
#[derive(Debug)]
pub struct PunchProbePayload {
    pub session_id: String,
    pub sender: String,
    pub timestamp: String,
}

/// The JSON text of a probe payload, fields in declaration order.
pub open spec fn probe_payload_json(session_id: Seq<char>, sender: Seq<char>, timestamp: Seq<char>) -> Seq<char> {
    "{\"sessionId\":"@ + json_string(session_id) + ",\"sender\":"@ + json_string(sender) + ",\"timestamp\":"@
        + json_string(timestamp) + "}"@
}

impl PunchProbePayload {
    /// The payload as JSON, as `serde_json::to_string` writes it.
    pub fn to_json(&self) -> (s: String)
        ensures
            s@ == probe_payload_json(self.session_id@, self.sender@, self.timestamp@),
    {
        let mut s = String::from_str("{\"sessionId\":");
        push_json_string(&mut s, self.session_id.as_str());
        s.append(",\"sender\":");
        push_json_string(&mut s, self.sender.as_str());
        s.append(",\"timestamp\":");
        push_json_string(&mut s, self.timestamp.as_str());
        s.append("}");
        s
    }
}

/// A probe or acknowledgement of `packet_type` for session `session_id`.
fn punch_packet(packet_type: PacketType, session_id: &str, sender: &str, recipient: &str, signature: &str) -> (p: Packet)
    ensures
        exists|ts: Seq<char>| is_stamp(ts) && is_outgoing(p, packet_type, sender@, recipient@, probe_payload_json(session_id@, sender@, ts), signature@),
{
    let payload = PunchProbePayload {
        session_id: String::from_str(session_id),
        sender: String::from_str(sender),
        timestamp: now_rfc3339(),
    };
    let text = payload.to_json();
    Packet::outgoing(packet_type, sender, recipient, text, signature)
}

/// A probe from `sender` to `recipient` for session `session_id`.
pub fn build_probe_packet(session_id: &str, sender: &str, recipient: &str) -> (res: Result<Packet, MessengerError>)
    ensures
        res matches Ok(p) && exists|ts: Seq<char>| is_stamp(ts) &&
            is_outgoing(p, PacketType::PunchProbe, sender@, recipient@, probe_payload_json(session_id@, sender@, ts), "punch-probe"@),
{
    Ok(punch_packet(PacketType::PunchProbe, session_id, sender, recipient, "punch-probe"))
}

/// An acknowledgement from `sender` to `recipient` for session `session_id`.
pub fn build_ack_packet(session_id: &str, sender: &str, recipient: &str) -> (res: Result<Packet, MessengerError>)
    ensures
        res matches Ok(p) && exists|ts: Seq<char>| is_stamp(ts) &&
            is_outgoing(p, PacketType::PunchAck, sender@, recipient@, probe_payload_json(session_id@, sender@, ts), "punch-ack"@),
{
    Ok(punch_packet(PacketType::PunchAck, session_id, sender, recipient, "punch-ack"))
}

} // verus!
