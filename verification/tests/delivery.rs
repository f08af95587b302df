use rust_messenger::network::candidate::{CandidateType, IceCandidate};
use rust_messenger::peer::discovery::PeerDiscoveryManager;
use rust_messenger::punch::coordinator::{ack_wait_step, AckWait};
use rust_messenger::messaging::delivery::{DeliveryAction, DeliveryEvent, DeliveryManager};
use rust_messenger::protocol::packet::PacketType;

#[test]
fn delivery_rounds_double_then_give_up() {
    let (r, a) = DeliveryManager::delivery_step(0, DeliveryEvent::Start, 9);
    assert_eq!((r, a), (1, DeliveryAction::SendAndWait(1)));
    let (r, a) = DeliveryManager::delivery_step(r, DeliveryEvent::RoundTimedOut, 9);
    assert_eq!((r, a), (2, DeliveryAction::SendAndWait(2)));
    let (r, a) = DeliveryManager::delivery_step(r, DeliveryEvent::RoundTimedOut, 9);
    assert_eq!((r, a), (3, DeliveryAction::SendAndWait(4)));
    let (r, a) = DeliveryManager::delivery_step(r, DeliveryEvent::RoundTimedOut, 9);
    assert_eq!((r, a), (3, DeliveryAction::GiveUp));
}

#[test]
fn delivery_waits_for_the_right_ack() {
    let other = DeliveryEvent::Received { packet_type: PacketType::MessageAck, acked: Some(8) };
    assert_eq!(DeliveryManager::delivery_step(1, other, 9), (1, DeliveryAction::KeepWaiting));
    let wrong_type = DeliveryEvent::Received { packet_type: PacketType::Message, acked: Some(9) };
    assert_eq!(DeliveryManager::delivery_step(1, wrong_type, 9), (1, DeliveryAction::KeepWaiting));
    let ack = DeliveryEvent::Received { packet_type: PacketType::MessageAck, acked: Some(9) };
    assert_eq!(DeliveryManager::delivery_step(2, ack, 9), (2, DeliveryAction::Delivered));
}

#[test]
fn punch_wait_answers_probes() {
    assert_eq!(ack_wait_step(PacketType::PunchAck), AckWait::Acknowledged);
    assert_eq!(ack_wait_step(PacketType::PunchProbe), AckWait::AnswerProbe);
    assert_eq!(ack_wait_step(PacketType::Keepalive), AckWait::Ignore);
}

#[test]
fn discovered_peer_has_default_capabilities() {
    let c = IceCandidate {
        foundation: "f".to_string(),
        component: 1,
        transport: "udp".to_string(),
        priority: 7,
        address: "10.0.0.9".to_string(),
        port: 4000,
        candidate_type: CandidateType::Host,
    };
    let p = PeerDiscoveryManager::discovered_peer("carol", true, vec![c]);
    assert_eq!(p.username, "carol");
    assert!(p.online);
    assert_eq!(p.candidates.len(), 1);
    assert_eq!(p.candidates[0].port, 4000);
    assert!(p.capabilities.supports_ice && !p.capabilities.supports_turn);
    assert_eq!(p.capabilities.max_file_size_mb, 50);
    assert_eq!(p.capabilities.client_version, "0.5.0");
}
