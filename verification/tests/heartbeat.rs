use rust_messenger::ice::checks::{check_wait, keepalive_start};
use rust_messenger::ice::pair::CandidatePair;
use rust_messenger::messaging::delivery::DeliveryManager;
use rust_messenger::network::candidate::{CandidateType, IceCandidate};
use rust_messenger::punch::coordinator::probe_wait;
use rust_messenger::session::identity::{init_plan, key_hex};
use rust_messenger::error::MessengerError;
use rust_messenger::session::heartbeat::{check_heartbeat_reply, heartbeat_start, heartbeat_tick};
use rust_messenger::session::models::Session;

fn session(online: bool) -> Session {
    Session {
        session_id: "sid-1".to_string(),
        username: "alice".to_string(),
        started_at: "2024-01-01T00:00:00Z".to_string(),
        online,
        client_version: "0.2.0".to_string(),
    }
}

#[test]
fn heartbeat_start_refusals_in_order() {
    let on = session(true);
    let off = session(false);
    assert_eq!(heartbeat_start(true, None, None).unwrap_err(), MessengerError::AlreadyRunning);
    assert_eq!(heartbeat_start(false, None, Some(&on)).unwrap_err(), MessengerError::NoIdentity);
    assert_eq!(heartbeat_start(false, Some("alice"), None).unwrap_err(), MessengerError::NoSession);
    assert_eq!(
        heartbeat_start(false, Some("alice"), Some(&off)).unwrap_err(),
        MessengerError::SessionOffline
    );
    let t = heartbeat_start(false, Some("alice"), Some(&on)).unwrap();
    assert_eq!(t.username, "alice");
    assert_eq!(t.session_id, "sid-1");
    assert_eq!(t.client_version, "0.2.0");
}

#[test]
fn heartbeat_tick_ignores_offline() {
    let off = session(false);
    assert_eq!(heartbeat_tick(None, Some(&off)).unwrap_err(), MessengerError::NoIdentity);
    assert_eq!(heartbeat_tick(Some("bob"), None).unwrap_err(), MessengerError::NoSession);
    let t = heartbeat_tick(Some("bob"), Some(&off)).unwrap();
    assert_eq!(t.username, "bob");
    assert_eq!(t.session_id, "sid-1");
    assert!(check_heartbeat_reply(true).is_ok());
    assert_eq!(check_heartbeat_reply(false).unwrap_err(), MessengerError::HeartbeatRejected);
}

#[test]
fn identity_files_are_kept_unless_forced() {
    assert_eq!(init_plan(false, true, false, false, true).unwrap_err(), MessengerError::IdentityExists);
    assert_eq!(init_plan(false, false, false, true, false).unwrap_err(), MessengerError::IdentityExists);
    assert_eq!(init_plan(false, false, false, false, true), Ok(false));
    assert_eq!(init_plan(false, false, false, false, false), Ok(true));
    assert_eq!(init_plan(true, true, true, true, true), Ok(true));
    let mut k = [0u8; 32];
    k[0] = 0xab;
    k[31] = 0x0f;
    let h = key_hex(&k);
    assert_eq!(h.len(), 64);
    assert!(h.starts_with("ab00"));
    assert!(h.ends_with("000f"));
}

#[test]
fn keepalive_and_check_timing() {
    assert_eq!(check_wait(0), Some(500));
    assert_eq!(check_wait(4999), Some(500));
    assert_eq!(check_wait(5000), None);
    assert_eq!(probe_wait(120), Some(380));
    assert_eq!(probe_wait(500), None);
    assert_eq!(DeliveryManager::round_wait(2, 500), Some(1500));
    assert_eq!(DeliveryManager::round_wait(1, 1000), None);
    let c = |a: &str, p: u16| IceCandidate {
        foundation: "1".to_string(),
        component: 1,
        transport: "UDP".to_string(),
        priority: 1,
        address: a.to_string(),
        port: p,
        candidate_type: CandidateType::Host,
    };
    let pair = CandidatePair::new(c("10.0.0.1", 5000), c("10.0.0.2", 6000), 100);
    assert_eq!(keepalive_start(false, &pair).unwrap(), ("10.0.0.2".to_string(), 6000));
    assert_eq!(keepalive_start(true, &pair).unwrap_err(), MessengerError::AlreadyRunning);
}
