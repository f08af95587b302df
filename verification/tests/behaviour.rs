use rust_messenger::chat::models::{Direction, Message, MessageStatus, MessageType};
use rust_messenger::error::MessengerError;
use rust_messenger::handshake::answer::ConnectionAnswer;
use rust_messenger::handshake::manager::HandshakeManager;
use rust_messenger::handshake::negotiation::HandshakeSession;
use rust_messenger::handshake::offer::ConnectionOffer;
use rust_messenger::handshake::selector::{score_pair, CandidateSelector};
use rust_messenger::ice::checks::{check_packet, check_step, keepalive_packet, CheckStep};
use rust_messenger::ice::connectivity::ConnectivityManager;
use rust_messenger::ice::pair::CandidatePair;
use rust_messenger::ice::state::IceConnectionState;
use rust_messenger::messaging::delivery::DeliveryManager;
use rust_messenger::messaging::listener::{
    get_listener_port, get_secure_session_key, IncomingAction, MessageListener, PayloadFields,
};
use rust_messenger::messaging::manager::MessageManager;
use rust_messenger::messaging::payload::{open_message_payload, seal_message_payload};
use rust_messenger::messaging::receipts::{
    mark_incoming_messages_read, prepare_read_receipt, update_message_status,
};
use rust_messenger::messaging::sender::{delivery_status, message_id_payload, MessageSender};
use rust_messenger::network::candidate::{CandidateType, IceCandidate};
use rust_messenger::network::discovery::DiscoveryManager;
use rust_messenger::network::endpoints::{check_ports, loopback_ports, message_ports, socket_ports};
use rust_messenger::network::interfaces::get_local_interfaces;
use rust_messenger::network::nat_info::NatType;
use rust_messenger::network::reliability::ReliabilityLayer;
use rust_messenger::peer::capabilities::PeerCapabilities;
use rust_messenger::protocol::json::push_json_string;
use rust_messenger::protocol::packet::{Packet, PacketType};
use rust_messenger::protocol::requests::{accept_request, add_request, reject_request, RequestStatus};
use rust_messenger::punch::coordinator::{complete_punch_session, first_punch_step, punch_step, PunchStep};
use rust_messenger::punch::manager::{mark_punch_established, HolePunchManager};
use rust_messenger::punch::probe::{build_ack_packet, build_probe_packet};
use rust_messenger::punch::session::PunchSession;
use rust_messenger::punch::state::PunchState;
use rust_messenger::secure::bootstrap::bootstrap_secure_session;
use rust_messenger::secure::session::SecureSession;
use rust_messenger::session::manager::{is_online, start_session, stop_session};
use rust_messenger::session::models::Session;
use rust_messenger::stamp::UtcTime;
use rust_messenger::text::{decimal_string, eq_ignore_ascii_case, is_blank, lowercase_before, str_lt};
use rust_messenger::transport::manager::TransportManager;
use rust_messenger::transport::mock::MockTransport;
use rust_messenger::transport::registry::{create_transport, TransportPlan, TransportType};
use rust_messenger::transport::transport_trait::Transport;

fn cand(foundation: &str, address: &str, port: u16, priority: u32, t: CandidateType) -> IceCandidate {
    IceCandidate {
        foundation: foundation.to_string(),
        component: 1,
        transport: "UDP".to_string(),
        priority,
        address: address.to_string(),
        port,
        candidate_type: t,
    }
}

fn pair(local: &str, lport: u16, remote: &str, rport: u16) -> CandidatePair {
    CandidatePair::new(
        cand("1", local, lport, 100, CandidateType::Host),
        cand("1", remote, rport, 100, CandidateType::Host),
        100,
    )
}

fn caps() -> PeerCapabilities {
    PeerCapabilities::default()
}

fn offer(id: &str, sender: &str, recipient: &str) -> ConnectionOffer {
    ConnectionOffer {
        offer_id: id.to_string(),
        sender: sender.to_string(),
        recipient: recipient.to_string(),
        session_id: "s".to_string(),
        candidates: vec![],
        capabilities: caps(),
        timestamp: "t".to_string(),
    }
}

fn punch(peer: &str, state: PunchState, p: CandidatePair) -> PunchSession {
    PunchSession {
        session_id: "ps".to_string(),
        peer: peer.to_string(),
        selected_pair: p,
        state,
        attempts: 1,
        started_at: "t".to_string(),
    }
}

fn secure(peer: &str, id: &str, established: bool) -> SecureSession {
    SecureSession {
        session_id: id.to_string(),
        peer: peer.to_string(),
        created_at: "t".to_string(),
        established,
    }
}

fn msg(id: u128, direction: Direction, status: MessageStatus, secs: i64) -> Message {
    Message {
        id,
        direction,
        timestamp: UtcTime { secs, nanos: 0 },
        status,
        message_type: MessageType::Text,
        content: format!("m{}", id),
        signature: None,
        reply_to: None,
    }
}

fn packet(t: PacketType, sender: &str, payload: &str) -> Packet {
    Packet {
        version: 1,
        packet_type: t,
        message_id: 7,
        sender: sender.to_string(),
        recipient: "me".to_string(),
        timestamp: UtcTime { secs: 0, nanos: 0 },
        nonce: "n".to_string(),
        encrypted_payload: payload.to_string(),
        signature: "sig".to_string(),
    }
}

#[test]
fn blank_text_is_all_white_space() {
    assert!(is_blank(""));
    assert!(is_blank(" \t\n\r"));
    assert!(is_blank("\u{3000}\u{a0}"));
    assert!(!is_blank(" a "));
}

#[test]
fn ascii_case_is_ignored_only_for_ascii() {
    assert!(eq_ignore_ascii_case("Alice", "aLICE"));
    assert!(!eq_ignore_ascii_case("é", "É"));
    assert!(!eq_ignore_ascii_case("ab", "abc"));
}

#[test]
fn text_order_and_decimals() {
    assert!(str_lt("abc", "abd"));
    assert!(str_lt("ab", "abc"));
    assert!(!str_lt("abc", "abc"));
    assert!(!str_lt("b", "a"));
    assert_eq!(decimal_string(0), "0");
    assert_eq!(decimal_string(65535), "65535");
    assert!(lowercase_before("Alice", "bob"));
    assert!(!lowercase_before("Bob", "alice"));
}

#[test]
fn loopback_ports_are_complementary() {
    assert_eq!(loopback_ports("alice", "Bob"), (5001, 5002));
    assert_eq!(loopback_ports("Bob", "alice"), (5002, 5001));
    let lp = pair("127.0.0.1", 7000, "localhost", 7001);
    assert_eq!(message_ports(&lp, "alice", "bob"), (5001, 5002));
    let net = pair("10.0.0.1", 7000, "10.0.0.2", 7001);
    assert_eq!(message_ports(&net, "alice", "bob"), (7000, 7001));
    assert_eq!(socket_ports(&net, "alice", "bob"), (5000, 7001));
    let half = pair("127.0.0.1", 7000, "10.0.0.2", 7001);
    assert_eq!(socket_ports(&half, "alice", "bob"), (5000, 7001));
    assert_eq!(check_ports(&half, "bob", "alice"), (5002, Some(5001)));
    assert_eq!(check_ports(&net, "bob", "alice"), (5000, None));
}

#[test]
fn best_pair_errors_and_ties() {
    let h = cand("1", "10.0.0.1", 1, 10, CandidateType::Host);
    assert_eq!(
        CandidateSelector::select_best_pair(&[], &[]).unwrap_err(),
        MessengerError::LocalCandidatesEmpty
    );
    assert_eq!(
        CandidateSelector::select_best_pair(&[h.clone()], &[]).unwrap_err(),
        MessengerError::RemoteCandidatesEmpty
    );
    let a = cand("a", "10.0.0.1", 1, 10, CandidateType::Host);
    let b = cand("b", "10.0.0.2", 1, 10, CandidateType::Host);
    let r = cand("r", "10.0.0.3", 1, 10, CandidateType::Host);
    let p = CandidateSelector::select_best_pair(&[a, b], &[r.clone()]).unwrap();
    assert_eq!(p.local.foundation, "a");
    let weak_relay = cand("w", "10.0.0.4", 1, 5000, CandidateType::Relay);
    assert_eq!(score_pair(&weak_relay, &r), 4000 + 5000 + 10);
    let p2 = CandidateSelector::select_best_pair(&[h.clone()], &[r.clone(), weak_relay]).unwrap();
    assert_eq!(p2.remote.foundation, "r");
    let strong_relay = cand("x", "10.0.0.5", 1, 7000, CandidateType::Relay);
    let p3 = CandidateSelector::select_best_pair(&[h], &[r, strong_relay]).unwrap();
    assert_eq!(p3.remote.foundation, "x");
}

#[test]
fn pairs_are_formed_and_ordered() {
    let local = [
        cand("l1", "a", 1, 1, CandidateType::ServerReflexive),
        cand("l2", "b", 2, 2, CandidateType::Host),
    ];
    let remote = [
        cand("r1", "c", 3, 3, CandidateType::Host),
        cand("r2", "d", 4, 4, CandidateType::Relay),
    ];
    let mut pairs = ConnectivityManager::build_candidate_pairs(&local, &remote);
    let prios: Vec<u32> = pairs.iter().map(|p| p.priority).collect();
    assert_eq!(prios, vec![90, 50, 100, 50]);
    assert!(pairs.iter().all(|p| p.state == IceConnectionState::Checking));
    assert_eq!(pairs[1].local.foundation, "l1");
    assert_eq!(pairs[1].remote.foundation, "r2");
    ConnectivityManager::prioritize_pairs(&mut pairs);
    let order: Vec<(String, String)> = pairs
        .iter()
        .map(|p| (p.local.foundation.clone(), p.remote.foundation.clone()))
        .collect();
    assert_eq!(
        order,
        vec![
            ("l2".to_string(), "r1".to_string()),
            ("l1".to_string(), "r1".to_string()),
            ("l1".to_string(), "r2".to_string()),
            ("l2".to_string(), "r2".to_string()),
        ]
    );
    assert!(ConnectivityManager::select_working_pair(&pairs).is_none());
    pairs[2].state = IceConnectionState::Connected;
    pairs[3].state = IceConnectionState::Connected;
    let w = ConnectivityManager::select_working_pair(&pairs).unwrap();
    assert_eq!(w.local.foundation, "l1");
    assert_eq!(w.remote.foundation, "r2");
}

#[test]
fn offers_are_validated_in_order() {
    assert_eq!(
        HandshakeManager::validate_offer(&offer(" ", "", "")).unwrap_err(),
        MessengerError::OfferIdEmpty
    );
    assert_eq!(
        HandshakeManager::validate_offer(&offer("o", " ", "")).unwrap_err(),
        MessengerError::OfferSenderEmpty
    );
    assert_eq!(
        HandshakeManager::validate_offer(&offer("o", "a", "\t")).unwrap_err(),
        MessengerError::OfferRecipientEmpty
    );
    assert!(HandshakeManager::validate_offer(&offer("o", "a", "b")).is_ok());
}

#[test]
fn handshake_lifecycle() {
    let session = Session {
        session_id: "sess".to_string(),
        username: "alice".to_string(),
        started_at: "t".to_string(),
        online: true,
        client_version: "0.2.0".to_string(),
    };
    let mut hs: Vec<HandshakeSession> = Vec::new();
    let o = HandshakeManager::create_offer("bob", vec![], &session, caps(), &mut hs).unwrap();
    assert_eq!(o.offer_id.len(), 36);
    assert_eq!(o.sender, "alice");
    assert_eq!(hs.len(), 1);
    assert_eq!(hs[0].status, "PENDING");
    assert!(hs[0].answer.is_none());
    assert_eq!(
        HandshakeManager::create_offer(" ", vec![], &session, caps(), &mut hs).unwrap_err(),
        MessengerError::OfferRecipientEmpty
    );
    assert_eq!(hs.len(), 1);

    let chosen = cand("9", "10.0.0.9", 9, 9, CandidateType::Host);
    let a = HandshakeManager::accept_offer(o.clone(), chosen, caps(), &mut hs).unwrap();
    assert!(a.accepted);
    assert_eq!(a.offer_id, o.offer_id);
    assert_eq!(hs.len(), 1);
    assert_eq!(hs[0].status, "ACCEPTED");

    let other = offer("other", "carol", "alice");
    let r = HandshakeManager::reject_offer(other, caps(), &mut hs).unwrap();
    assert!(!r.accepted);
    assert_eq!(r.selected_candidate.address, "");
    assert_eq!(hs.len(), 2);
    assert_eq!(hs[1].status, "REJECTED");

    assert_eq!(
        HandshakeManager::complete_handshake("missing", a.clone(), &mut hs).unwrap_err(),
        MessengerError::HandshakeNotFound
    );
    HandshakeManager::complete_handshake("other", a.clone(), &mut hs).unwrap();
    assert_eq!(hs[1].status, "ACCEPTED");
    assert_eq!(hs[1].answer.as_ref().unwrap().offer_id, o.offer_id);
}

#[test]
fn punch_sessions_are_resumed_and_replaced() {
    let mut sessions = vec![
        punch("Bob", PunchState::Failed, pair("a", 1, "b", 2)),
        punch("carol", PunchState::Established, pair("a", 1, "c", 3)),
    ];
    assert_eq!(
        HolePunchManager::resume_session("dave", &sessions).unwrap_err(),
        MessengerError::PunchSessionNotFound
    );
    assert_eq!(
        HolePunchManager::resume_session("bob", &sessions).unwrap_err(),
        MessengerError::PunchNotEstablished(PunchState::Failed)
    );
    assert_eq!(HolePunchManager::resume_session("CAROL", &sessions).unwrap().peer, "carol");
    let ps = complete_punch_session(&mut sessions, "s2", "bob", &pair("a", 1, "b", 5), 3, PunchState::Established);
    assert_eq!(sessions.len(), 2);
    assert_eq!(sessions[0].peer, "carol");
    assert_eq!(sessions[1].peer, "bob");
    assert_eq!(ps.attempts, 3);
    let resumed = HolePunchManager::resume_session("BOB", &sessions).unwrap();
    assert_eq!(resumed.selected_pair.remote.port, 5);
    assert!(!mark_punch_established(&mut sessions, "zed"));
    sessions[1].state = PunchState::Waiting;
    assert!(mark_punch_established(&mut sessions, "Bob"));
    assert_eq!(sessions[1].state, PunchState::Established);
}

#[test]
fn punching_gives_up_after_ten_attempts() {
    assert_eq!(first_punch_step(), PunchStep::Probe(1));
    assert_eq!(punch_step(1, false), PunchStep::Probe(2));
    assert_eq!(punch_step(4, true), PunchStep::Finish(PunchState::Established, 4));
    assert_eq!(punch_step(10, false), PunchStep::Finish(PunchState::Failed, 10));
}

#[test]
fn sessions_start_and_stop() {
    assert_eq!(start_session(None, None).unwrap_err(), MessengerError::NoIdentity);
    let (fresh, save) = start_session(Some("alice"), None).unwrap();
    assert!(save);
    assert!(fresh.online);
    assert_eq!(fresh.client_version, "0.2.0");
    assert_eq!(fresh.session_id.len(), 36);
    let (again, save2) = start_session(Some("alice"), Some(fresh.clone())).unwrap();
    assert!(!save2);
    assert_eq!(again.session_id, fresh.session_id);
    let stopped = stop_session(again);
    assert!(!stopped.online);
    assert!(!is_online(Some(&stopped)));
    assert!(!is_online(None));
    let (next, save3) = start_session(Some("alice"), Some(stopped.clone())).unwrap();
    assert!(save3);
    assert_ne!(next.session_id, stopped.session_id);
}

#[test]
fn requests_are_added_once_and_settled() {
    let mut reqs = Vec::new();
    let r = add_request("Alice", &mut reqs).unwrap();
    assert_eq!(r.status, RequestStatus::Pending);
    assert_eq!(add_request("alice", &mut reqs).unwrap_err(), MessengerError::PendingRequestExists);
    let acc = accept_request("ALICE", &mut reqs).unwrap();
    assert_eq!(acc.id, r.id);
    assert_eq!(acc.status, RequestStatus::Accepted);
    assert_eq!(reject_request("alice", &mut reqs).unwrap_err(), MessengerError::NoPendingRequest);
    add_request("alice", &mut reqs).unwrap();
    assert_eq!(reject_request("alice", &mut reqs).unwrap().status, RequestStatus::Rejected);
    assert_eq!(reqs.len(), 2);
    assert_eq!(RequestStatus::Pending.as_str(), "PENDING");
}

#[test]
fn packets_are_validated_in_order() {
    let mut p = packet(PacketType::Ping, "a", "");
    assert!(p.validate().is_ok());
    p.signature = " ".to_string();
    assert_eq!(p.validate().unwrap_err(), MessengerError::PacketSignatureEmpty);
    p.message_id = 0;
    assert_eq!(p.validate().unwrap_err(), MessengerError::PacketMessageIdNil);
    p.recipient = "".to_string();
    assert_eq!(p.validate().unwrap_err(), MessengerError::PacketRecipientEmpty);
    p.sender = "\n".to_string();
    assert_eq!(p.validate().unwrap_err(), MessengerError::PacketSenderEmpty);
    p.version = 2;
    assert_eq!(p.validate().unwrap_err(), MessengerError::UnsupportedVersion(2));
    let k = keepalive_packet("a", "b");
    assert!(k.validate().is_ok());
    assert_eq!(k.nonce.len(), 36);
    assert_ne!(k.message_id, 0);
    assert_eq!(PacketType::MessageAck.as_str(), "MESSAGE_ACK");
}

#[test]
fn json_strings_match_serde_json() {
    for s in ["plain", "quote\" and \\ slash", "ctl\u{1}\u{8}\t\n\u{c}\r\u{1f}", "ünï €", "/"] {
        let mut out = String::new();
        push_json_string(&mut out, s);
        assert_eq!(out, serde_json::to_string(&serde_json::Value::String(s.to_string())).unwrap());
    }
}

#[test]
fn payload_json_matches_serde_json() {
    let id: u128 = 0x0123_4567_89ab_4def_8123_4567_89ab_cdef;
    let mut map = serde_json::Map::new();
    map.insert(
        "messageId".to_string(),
        serde_json::Value::String(uuid::Uuid::from_u128(id).to_string()),
    );
    assert_eq!(message_id_payload(id), serde_json::Value::Object(map).to_string());
    let probe = build_probe_packet("s\"1", "alice", "bob").unwrap();
    assert_eq!(probe.packet_type, PacketType::PunchProbe);
    assert_eq!(probe.signature, "punch-probe");
    let v: serde_json::Value = serde_json::from_str(&probe.encrypted_payload).unwrap();
    assert_eq!(v["sessionId"], "s\"1");
    assert_eq!(v["sender"], "alice");
    assert!(probe.encrypted_payload.starts_with("{\"sessionId\":\"s\\\"1\",\"sender\":\"alice\",\"timestamp\":"));
    let ack = build_ack_packet("s1", "bob", "alice").unwrap();
    assert_eq!(ack.packet_type, PacketType::PunchAck);
    assert_eq!(ack.sender, "bob");
    assert_eq!(ack.recipient, "alice");
}

#[test]
fn session_key_is_sha256_of_id() {
    let key = get_secure_session_key("abc");
    assert_eq!(key[0..4], [0xba, 0x78, 0x16, 0xbf]);
    assert_eq!(key[28..32], [0xf2, 0x00, 0x15, 0xad]);
}

#[test]
fn payload_round_trip_and_errors() {
    let key = [1u8; 32];
    let nonce = [2u8; 12];
    let sealed = seal_message_payload(&key, &nonce, "héllo").unwrap();
    assert_ne!(sealed, "héllo");
    assert_eq!(open_message_payload(&key, &sealed).unwrap(), "héllo");
    assert_eq!(open_message_payload(&key, "***").unwrap_err(), MessengerError::PayloadNotBase64);
    assert_eq!(open_message_payload(&key, "AAAA").unwrap_err(), MessengerError::PayloadTooShort);
    assert_eq!(
        open_message_payload(&[9u8; 32], &sealed).unwrap_err(),
        MessengerError::DecryptionFailed
    );
}

#[test]
fn listener_delivers_and_acknowledges() {
    let sessions = vec![secure("Alice", "sid-1", true)];
    let key = get_secure_session_key("sid-1");
    let enc = seal_message_payload(&key, &[3u8; 12], "hi bob").unwrap();
    let fields = PayloadFields {
        message_id: Some(42),
        sender: Some("alice".to_string()),
        recipient: Some("bob".to_string()),
        encrypted_payload: Some(enc),
        timestamp: Some("t".to_string()),
        session_id: None,
    };
    let p = packet(PacketType::Message, "alice", "");
    match MessageListener::handle_packet(&p, Some(&fields), Some("bob"), &sessions).unwrap() {
        IncomingAction::Deliver { peer, message, ack } => {
            assert_eq!(peer, "alice");
            assert_eq!(message.id, 42);
            assert_eq!(message.content, "hi bob");
            assert_eq!(message.direction, Direction::Incoming);
            assert_eq!(message.status, MessageStatus::Delivered);
            assert_eq!(ack.packet_type, PacketType::MessageAck);
            assert_eq!(ack.sender, "bob");
            assert_eq!(ack.recipient, "alice");
            assert_eq!(ack.encrypted_payload, message_id_payload(42));
        }
        other => panic!("unexpected {:?}", other),
    }
    assert_eq!(
        MessageListener::handle_packet(&p, None, Some("bob"), &sessions).unwrap_err(),
        MessengerError::PayloadMalformed
    );
    assert_eq!(
        MessageListener::handle_packet(&p, Some(&fields), Some("bob"), &[]).unwrap_err(),
        MessengerError::SecureSessionNotFound
    );
    let read = packet(PacketType::MessageRead, "alice", "");
    match MessageListener::handle_packet(&read, Some(&fields), None, &sessions).unwrap() {
        IncomingAction::SetStatus { peer, message_id, status } => {
            assert_eq!(peer, "alice");
            assert_eq!(message_id, 42);
            assert_eq!(status, MessageStatus::Read);
        }
        other => panic!("unexpected {:?}", other),
    }
    let check = packet(PacketType::ConnectivityCheck, "alice", "");
    assert_eq!(
        MessageListener::handle_packet(&check, None, None, &sessions).unwrap_err(),
        MessengerError::NoSession
    );
    match MessageListener::handle_packet(&check, None, Some("bob"), &sessions).unwrap() {
        IncomingAction::Reply(r) => assert_eq!(r.packet_type, PacketType::ConnectivityResponse),
        other => panic!("unexpected {:?}", other),
    }
    let ping = packet(PacketType::Ping, "alice", "");
    assert!(matches!(
        MessageListener::handle_packet(&ping, None, None, &sessions).unwrap(),
        IncomingAction::Ignore
    ));
}

#[test]
fn listener_port_follows_established_session() {
    assert_eq!(get_listener_port("bob", &[]), 5000);
    let s = vec![
        punch("zed", PunchState::Failed, pair("10.0.0.1", 6000, "10.0.0.2", 6001)),
        punch("alice", PunchState::Established, pair("10.0.0.1", 6100, "10.0.0.1", 6101)),
    ];
    assert_eq!(get_listener_port("bob", &s), 5002);
    let t = vec![punch("alice", PunchState::Established, pair("10.0.0.1", 6100, "10.0.0.3", 6101))];
    assert_eq!(get_listener_port("bob", &t), 6100);
}

#[test]
fn unread_messages_are_gathered_by_time() {
    let convs = vec![
        (
            "alice".to_string(),
            vec![
                msg(1, Direction::Incoming, MessageStatus::Delivered, 30),
                msg(2, Direction::Incoming, MessageStatus::Read, 5),
                msg(3, Direction::Outgoing, MessageStatus::Delivered, 1),
            ],
        ),
        (
            "bob".to_string(),
            vec![
                msg(4, Direction::Incoming, MessageStatus::Queued, 30),
                msg(5, Direction::Incoming, MessageStatus::Delivered, 10),
            ],
        ),
    ];
    let unread = MessageManager::get_unread_messages(&convs);
    let ids: Vec<(String, u128)> = unread.iter().map(|(n, m)| (n.clone(), m.id)).collect();
    assert_eq!(
        ids,
        vec![("bob".to_string(), 5), ("alice".to_string(), 1), ("bob".to_string(), 4)]
    );
}

#[test]
fn receipts_change_statuses() {
    let mut messages = vec![
        msg(1, Direction::Incoming, MessageStatus::Delivered, 1),
        msg(2, Direction::Outgoing, MessageStatus::Failed, 2),
        msg(3, Direction::Incoming, MessageStatus::Read, 3),
        msg(4, Direction::Incoming, MessageStatus::Queued, 4),
    ];
    assert_eq!(MessageSender::failed_ids(&messages), vec![2]);
    assert!(!update_message_status(&mut messages, 9, MessageStatus::Read));
    assert!(update_message_status(&mut messages, 2, MessageStatus::Queued));
    assert_eq!(messages[1].status, MessageStatus::Queued);
    let ids = mark_incoming_messages_read(&mut messages);
    assert_eq!(ids, vec![1, 4]);
    assert!(messages.iter().filter(|m| m.direction == Direction::Incoming).all(|m| m.status == MessageStatus::Read));
    assert!(mark_incoming_messages_read(&mut messages).is_empty());
    let sessions = vec![punch("alice", PunchState::Established, pair("10.0.0.1", 6100, "10.0.0.2", 6101))];
    let receipt = prepare_read_receipt("bob", "Alice", 1, &sessions).unwrap();
    assert_eq!(receipt.packet.packet_type, PacketType::MessageRead);
    assert_eq!((receipt.local_port, receipt.remote_port), (6100, 6101));
    assert_eq!(receipt.remote_address, "10.0.0.2");
    assert_eq!(
        prepare_read_receipt("bob", "carol", 1, &sessions).unwrap_err(),
        MessengerError::PunchSessionNotFound
    );
}

#[test]
fn sending_checks_sessions_and_encrypts() {
    let secure_sessions = vec![secure("alice", "sid", false)];
    let punch_sessions = vec![punch("alice", PunchState::Failed, pair("127.0.0.1", 1, "localhost", 2))];
    assert_eq!(
        MessageSender::check_ready("carol", &secure_sessions, &punch_sessions).unwrap_err(),
        MessengerError::SecureSessionNotFound
    );
    assert_eq!(
        MessageSender::check_ready("alice", &secure_sessions, &punch_sessions).unwrap_err(),
        MessengerError::SecureSessionNotEstablished
    );
    let secure_sessions = vec![secure("alice", "sid", true)];
    assert_eq!(
        MessageSender::check_ready("alice", &secure_sessions, &[]).unwrap_err(),
        MessengerError::PunchSessionNotFound
    );
    assert_eq!(
        MessageSender::check_ready("alice", &secure_sessions, &punch_sessions).unwrap_err(),
        MessengerError::PunchNotEstablished(PunchState::Failed)
    );
    assert_eq!(MessageSender::check_resend("alice", &secure_sessions, &punch_sessions).unwrap(), (0, 0));
    let m = MessageSender::queue_message("secret text");
    assert_eq!(m.status, MessageStatus::Queued);
    let out = MessageSender::prepare_send("bob", "alice", &m, &secure_sessions[0], &punch_sessions[0]).unwrap();
    assert_eq!((out.local_port, out.remote_port), (5002, 5001));
    assert_eq!(out.packet.signature, "message-signature");
    let v: serde_json::Value = serde_json::from_str(&out.packet.encrypted_payload).unwrap();
    assert_eq!(v["messageId"], uuid::Uuid::from_u128(m.id).to_string());
    let enc = v["encryptedPayload"].as_str().unwrap();
    let key = get_secure_session_key("sid");
    assert_eq!(open_message_payload(&key, enc).unwrap(), "secret text");
    assert_eq!(delivery_status(true), MessageStatus::Delivered);
    assert_eq!(delivery_status(false), MessageStatus::Failed);
    assert!(DeliveryManager::acknowledges(PacketType::MessageAck, Some(5), 5));
    assert!(!DeliveryManager::acknowledges(PacketType::MessageRead, Some(5), 5));
    assert!(!DeliveryManager::acknowledges(PacketType::MessageAck, None, 5));
}

#[test]
fn reliability_numbers_packets() {
    let mut layer = ReliabilityLayer::new();
    assert_eq!(layer.next_sequence(), 1);
    assert_eq!(layer.next_sequence(), 2);
    layer.track_pending(rust_messenger::network::reliability::ReliablePacket {
        sequence: 2,
        ack: 0,
        payload: serde_json::Value::Null,
    });
    layer.ack_packet(2);
    assert_eq!(layer.next_sequence(), 3);
}

#[test]
fn mock_transport_is_fifo_and_needs_connection() {
    let mut t = MockTransport::new();
    assert!(!t.is_connected());
    assert_eq!(t.send(packet(PacketType::Ping, "a", "")).unwrap_err(), MessengerError::TransportNotConnected);
    t.simulate_incoming(packet(PacketType::Ping, "first", ""));
    t.simulate_incoming(packet(PacketType::Ping, "second", ""));
    assert_eq!(t.receive().unwrap_err(), MessengerError::TransportNotConnected);
    t.connect().unwrap();
    assert_eq!(t.receive().unwrap().unwrap().sender, "first");
    assert_eq!(t.receive().unwrap().unwrap().sender, "second");
    assert!(t.receive().unwrap().is_none());
    t.send(packet(PacketType::Ping, "x", "")).unwrap();
    assert_eq!(t.outgoing.len(), 1);
    t.disconnect().unwrap();
    assert!(!t.is_connected());

    let mut manager: TransportManager<MockTransport> = TransportManager::new();
    assert_eq!(manager.send_packet(packet(PacketType::Ping, "a", "")).unwrap_err(), MessengerError::NoTransport);
    let mut m = MockTransport::new();
    m.connect().unwrap();
    manager.register_transport(m);
    manager.send_packet(packet(PacketType::Ping, "a", "")).unwrap();
    assert!(manager.receive_packet().unwrap().is_none());
    assert_eq!(manager.get_transport().unwrap().outgoing.len(), 1);
    assert_eq!(manager.get_transport().unwrap().outgoing[0].sender, "a");
    manager.get_transport().unwrap().simulate_incoming(packet(PacketType::Ping, "first", ""));
    manager.get_transport().unwrap().simulate_incoming(packet(PacketType::Ping, "second", ""));
    assert_eq!(manager.receive_packet().unwrap().unwrap().sender, "first");
    assert_eq!(manager.receive_packet().unwrap().unwrap().sender, "second");
    assert!(manager.receive_packet().unwrap().is_none());
    manager.get_transport().unwrap().disconnect().unwrap();
    assert_eq!(
        manager.send_packet(packet(PacketType::Ping, "b", "")).unwrap_err(),
        MessengerError::TransportNotConnected
    );
    assert_eq!(manager.get_transport().unwrap().outgoing.len(), 1);
}

#[test]
fn transports_are_chosen_by_type() {
    let sessions = vec![punch("alice", PunchState::Established, pair("10.0.0.1", 6100, "10.0.0.2", 6101))];
    match create_transport(TransportType::Mock, "bob", "me", &[]).unwrap() {
        TransportPlan::Mock(mut t) => {
            assert!(t.is_connected());
            assert!(t.receive().unwrap().is_none());
            assert!(t.send(packet(PacketType::Ping, "me", "")).is_ok());
            assert_eq!(t.outgoing.len(), 1);
        }
        other => panic!("unexpected {:?}", other),
    }
    assert_eq!(
        create_transport(TransportType::Tcp, "x", "me", &[]).unwrap_err(),
        MessengerError::TransportNotImplemented(TransportType::Tcp)
    );
    assert_eq!(
        create_transport(TransportType::Ice, "x", "me", &sessions).unwrap_err(),
        MessengerError::PunchSessionNotFound
    );
    match create_transport(TransportType::Ice, "ALICE", "me", &sessions).unwrap() {
        TransportPlan::Udp { local_port, remote_address, remote_port } => {
            assert_eq!(local_port, 5000);
            assert_eq!(remote_address, "10.0.0.2");
            assert_eq!(remote_port, 6101);
        }
        other => panic!("unexpected {:?}", other),
    }
}

#[test]
fn discovery_builds_candidates() {
    let ips = vec!["10.0.0.5".to_string(), "192.168.1.2".to_string()];
    let (cands, info) = DiscoveryManager::build_candidates(&ips, Some(("49.1.2.3", 51322)));
    assert_eq!(cands.len(), 3);
    assert_eq!(cands[0].to_display_string(), "1 HOST 10.0.0.5:5000");
    assert_eq!(cands[2].to_display_string(), "3 SRFLX 49.1.2.3:51322");
    assert_eq!(cands[2].priority, 1686052863);
    assert_eq!(info.local_ip, "10.0.0.5");
    assert_eq!(info.public_port, 51322);
    assert_eq!(info.nat_type, NatType::Unknown);
    let (none, info2) = DiscoveryManager::build_candidates(&[], None);
    assert!(none.is_empty());
    assert_eq!(info2.local_ip, "127.0.0.1");
    assert_eq!(info2.public_ip, "0.0.0.0");
    assert_eq!(info2.stun_server, "stun.l.google.com:19302");
}

#[test]
fn interfaces_are_sorted_and_unique() {
    let ips = get_local_interfaces(&[[192, 168, 1, 2], [127, 0, 0, 1], [10, 0, 0, 1], [192, 168, 1, 2], [9, 9, 9, 9]]);
    assert_eq!(ips, vec!["10.0.0.1", "192.168.1.2", "9.9.9.9"]);
}

#[test]
fn secure_sessions_are_bootstrapped_per_peer() {
    let mut sessions = vec![secure("Alice", "old", true), secure("carol", "c", true)];
    assert_eq!(
        bootstrap_secure_session("bob", &["alice".to_string()], &mut sessions).unwrap_err(),
        MessengerError::NoNegotiatedConnection
    );
    let s = bootstrap_secure_session("ALICE", &["alice".to_string()], &mut sessions).unwrap();
    assert_eq!(s.peer, "alice");
    assert!(s.established);
    assert_eq!(sessions.len(), 2);
    assert_eq!(sessions[0].peer, "carol");
    assert_eq!(sessions[1].session_id, s.session_id);
}

#[test]
fn checks_and_defaults() {
    assert_eq!(check_step(PacketType::ConnectivityResponse), CheckStep::Connected);
    assert_eq!(check_step(PacketType::ConnectivityCheck), CheckStep::AnswerAndConnect);
    assert_eq!(check_step(PacketType::Ping), CheckStep::KeepWaiting);
    let c = check_packet("a", "b");
    assert_eq!(c.signature, "connectivity-check");
    let d = PeerCapabilities::default();
    assert!(d.supports_ice && !d.supports_turn && d.supports_files && d.supports_images);
    assert_eq!(d.max_file_size_mb, 50);
    assert_eq!(d.client_version, "0.5.0");
    assert_eq!(IceConnectionState::Connected.as_str(), "CONNECTED");
    assert_eq!(PunchState::Established.as_str(), "ESTABLISHED");
    assert_eq!(CandidateType::ServerReflexive.as_str(), "SERVER_REFLEXIVE");
    assert_eq!(NatType::PortRestricted.as_str(), "PORT_RESTRICTED");
    let ca = ConnectionAnswer {
        offer_id: "o".to_string(),
        accepted: true,
        selected_candidate: cand("1", "a", 1, 1, CandidateType::Host),
        capabilities: caps(),
        timestamp: "t".to_string(),
    };
    assert_eq!(ca.clone().offer_id, "o");
}
