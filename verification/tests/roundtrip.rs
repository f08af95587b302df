use rust_messenger::chat::models::{Direction, MessageStatus};
use rust_messenger::ice::pair::CandidatePair;
use rust_messenger::messaging::listener::{IncomingAction, MessageListener, PayloadFields};
use rust_messenger::messaging::receipts::{mark_incoming_messages_read, prepare_read_receipt};
use rust_messenger::messaging::sender::{message_id_payload, MessageSender};
use rust_messenger::network::candidate::{CandidateType, IceCandidate};
use rust_messenger::protocol::packet::PacketType;
use rust_messenger::punch::session::PunchSession;
use rust_messenger::punch::state::PunchState;
use rust_messenger::secure::session::SecureSession;
use rust_messenger::error::MessengerError;
use rust_messenger::ice::connectivity::ConnectivityManager;
use rust_messenger::stamp::{UtcTime, EARLIEST_SECS, LATEST_SECS};

fn host(address: &str, port: u16) -> IceCandidate {
    IceCandidate {
        foundation: "1".to_string(),
        component: 1,
        transport: "UDP".to_string(),
        priority: 2130706431,
        address: address.to_string(),
        port,
        candidate_type: CandidateType::Host,
    }
}

fn established(peer: &str) -> PunchSession {
    PunchSession {
        session_id: "punch-1".to_string(),
        peer: peer.to_string(),
        selected_pair: CandidatePair::new(host("10.0.0.1", 5000), host("10.0.0.2", 6000), 100),
        state: PunchState::Established,
        attempts: 2,
        started_at: "t".to_string(),
    }
}

fn secure(peer: &str) -> SecureSession {
    SecureSession {
        session_id: "shared-session".to_string(),
        peer: peer.to_string(),
        created_at: "t".to_string(),
        established: true,
    }
}

fn fields_of(payload: &str) -> PayloadFields {
    let v: serde_json::Value = serde_json::from_str(payload).unwrap();
    let text = |k: &str| v.get(k).and_then(|x| x.as_str()).map(|s| s.to_string());
    PayloadFields {
        message_id: text("messageId").map(|s| uuid::Uuid::parse_str(&s).unwrap().as_u128()),
        sender: text("sender"),
        recipient: text("recipient"),
        encrypted_payload: text("encryptedPayload"),
        timestamp: text("timestamp"),
        session_id: text("sessionId"),
    }
}

#[test]
fn sent_message_is_delivered_with_its_content() {
    let m = MessageSender::queue_message("meet at noon ✓");
    let out = MessageSender::prepare_send("alice", "bob", &m, &secure("bob"), &established("bob")).unwrap();
    assert_eq!(out.local_address, "10.0.0.1");
    assert_eq!(out.remote_address, "10.0.0.2");
    assert_eq!((out.local_port, out.remote_port), (5000, 6000));
    let fields = fields_of(&out.packet.encrypted_payload);
    let receiver_sessions = vec![secure("ALICE")];
    match MessageListener::handle_packet(&out.packet, Some(&fields), Some("bob"), &receiver_sessions).unwrap() {
        IncomingAction::Deliver { peer, message, ack } => {
            assert_eq!(peer, "alice");
            assert_eq!(message.id, m.id);
            assert_eq!(message.content, "meet at noon ✓");
            assert_eq!(ack.sender, "bob");
            assert_eq!(ack.recipient, "alice");
            assert_eq!(ack.encrypted_payload, message_id_payload(m.id));
            assert_eq!(out.packet.validate(), Ok(()));
            assert_eq!(ack.validate(), Ok(()));
        }
        other => panic!("unexpected {:?}", other),
    }
}

#[test]
fn read_receipt_marks_the_message_read_on_the_sender() {
    let mut conversation = vec![rust_messenger::chat::models::Message {
        id: 77,
        direction: Direction::Incoming,
        timestamp: UtcTime { secs: 10, nanos: 0 },
        status: MessageStatus::Delivered,
        message_type: rust_messenger::chat::models::MessageType::Text,
        content: "hello".to_string(),
        signature: None,
        reply_to: None,
    }];
    let ids = mark_incoming_messages_read(&mut conversation);
    assert_eq!(ids, vec![77]);
    assert_eq!(conversation[0].status, MessageStatus::Read);
    assert!(mark_incoming_messages_read(&mut conversation).is_empty());
    let out = prepare_read_receipt("bob", "alice", 77, &[established("Alice")]).unwrap();
    assert_eq!(out.packet.packet_type, PacketType::MessageRead);
    let fields = fields_of(&out.packet.encrypted_payload);
    match MessageListener::handle_packet(&out.packet, Some(&fields), Some("alice"), &[]).unwrap() {
        IncomingAction::SetStatus { peer, message_id, status } => {
            assert_eq!(peer, "bob");
            assert_eq!(message_id, 77);
            assert_eq!(status, MessageStatus::Read);
        }
        other => panic!("unexpected {:?}", other),
    }
}

#[test]
fn queued_messages_are_stamped_with_instants_chrono_accepts() {
    let mut m = MessageSender::queue_message("x");
    assert!(MessageSender::prepare_send("alice", "bob", &m, &secure("bob"), &established("bob")).is_ok());
    let cases = [
        (LATEST_SECS, 0, true),
        (LATEST_SECS + 1, 0, false),
        (EARLIEST_SECS, 0, true),
        (EARLIEST_SECS - 1, 0, false),
        (59, 1_500_000_000, true),
        (58, 1_500_000_000, false),
        (-1, 1_999_999_999, true),
        (59, 2_000_000_000, false),
    ];
    for (secs, nanos, ok) in cases {
        m.timestamp = UtcTime { secs, nanos };
        let r = MessageSender::prepare_send("alice", "bob", &m, &secure("bob"), &established("bob"));
        if ok {
            assert!(r.is_ok(), "{} {}", secs, nanos);
        } else {
            assert_eq!(r.unwrap_err(), MessengerError::TimestampOutOfRange, "{} {}", secs, nanos);
        }
    }
}

#[test]
fn prioritizing_twice_changes_nothing() {
    let local = [host("10.0.0.1", 1), host("10.0.0.2", 2)];
    let mut relay = host("10.0.0.3", 3);
    relay.candidate_type = CandidateType::Relay;
    let remote = [relay, host("10.0.0.4", 4)];
    let mut pairs = ConnectivityManager::build_candidate_pairs(&local, &remote);
    ConnectivityManager::prioritize_pairs(&mut pairs);
    let once: Vec<(String, String, u32)> =
        pairs.iter().map(|p| (p.local.address.clone(), p.remote.address.clone(), p.priority)).collect();
    ConnectivityManager::prioritize_pairs(&mut pairs);
    let twice: Vec<(String, String, u32)> =
        pairs.iter().map(|p| (p.local.address.clone(), p.remote.address.clone(), p.priority)).collect();
    assert_eq!(once, twice);
    assert_eq!(once[0].2, 100);
}

#[test]
fn stamps_are_rfc3339_instants() {
    let punches = vec![established("bob")];
    let m = MessageSender::queue_message("again");
    let out = MessageSender::prepare_resend("alice", "bob", m.id, "again", &secure("bob"), &punches[0]).unwrap();
    let fields = fields_of(&out.packet.encrypted_payload);
    assert!(chrono::DateTime::parse_from_rfc3339(&fields.timestamp.unwrap()).is_ok());
    let mut sessions = Vec::new();
    let p = rust_messenger::punch::coordinator::complete_punch_session(
        &mut sessions, "s", "bob", &punches[0].selected_pair, 1, PunchState::Established,
    );
    assert!(chrono::DateTime::parse_from_rfc3339(&p.started_at).is_ok());
    assert!(out.packet.timestamp.nanos < 1_000_000_000);
}
