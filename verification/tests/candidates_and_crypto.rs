use rust_messenger::handshake::selector::CandidateSelector;
use rust_messenger::network::candidate::{CandidateType, IceCandidate};
use rust_messenger::network::session_keys::{derive_shared_secret, generate_ephemeral_keypair};
use rust_messenger::secure::exchange::{decrypt, encrypt};

#[test]
fn test_candidate_scoring() {
    let local_host = IceCandidate {
        foundation: "1".to_string(),
        component: 1,
        transport: "UDP".to_string(),
        priority: 100,
        address: "192.168.1.8".to_string(),
        port: 5000,
        candidate_type: CandidateType::Host,
    };
    let local_srflx = IceCandidate {
        foundation: "2".to_string(),
        component: 1,
        transport: "UDP".to_string(),
        priority: 50,
        address: "49.1.2.3".to_string(),
        port: 51322,
        candidate_type: CandidateType::ServerReflexive,
    };

    let remote_host = IceCandidate {
        foundation: "1".to_string(),
        component: 1,
        transport: "UDP".to_string(),
        priority: 100,
        address: "192.168.1.20".to_string(),
        port: 5000,
        candidate_type: CandidateType::Host,
    };
    let remote_srflx = IceCandidate {
        foundation: "2".to_string(),
        component: 1,
        transport: "UDP".to_string(),
        priority: 50,
        address: "49.5.6.7".to_string(),
        port: 51322,
        candidate_type: CandidateType::ServerReflexive,
    };

    let pair = CandidateSelector::select_best_pair(
        &[local_host.clone(), local_srflx.clone()],
        &[remote_host.clone(), remote_srflx.clone()],
    )
    .unwrap();
    assert_eq!(pair.local.candidate_type, CandidateType::Host);
    assert_eq!(pair.remote.candidate_type, CandidateType::Host);

    let pair2 = CandidateSelector::select_best_pair(
        &[local_srflx.clone()],
        &[remote_host.clone(), remote_srflx.clone()],
    )
    .unwrap();
    assert_eq!(pair2.local.candidate_type, CandidateType::ServerReflexive);
    assert_eq!(pair2.remote.candidate_type, CandidateType::Host);
}

#[test]
fn test_candidate_display() {
    let cand = IceCandidate {
        foundation: "1".to_string(),
        component: 1,
        transport: "UDP".to_string(),
        priority: 2130706431,
        address: "192.168.1.8".to_string(),
        port: 5000,
        candidate_type: CandidateType::Host,
    };
    assert_eq!(cand.to_display_string(), "1 HOST 192.168.1.8:5000");

    let cand_srflx = IceCandidate {
        foundation: "2".to_string(),
        component: 1,
        transport: "UDP".to_string(),
        priority: 1686052863,
        address: "49.1.2.3".to_string(),
        port: 51322,
        candidate_type: CandidateType::ServerReflexive,
    };
    assert_eq!(cand_srflx.to_display_string(), "2 SRFLX 49.1.2.3:51322");
}

#[test]
fn test_key_exchange() {
    let (alice_secret, alice_public) = generate_ephemeral_keypair();
    let (bob_secret, bob_public) = generate_ephemeral_keypair();

    let secret_alice = derive_shared_secret(alice_secret, &bob_public);
    let secret_bob = derive_shared_secret(bob_secret, &alice_public);

    assert_eq!(secret_alice, secret_bob);
}

#[test]
fn test_encrypt_decrypt() {
    let key = [42u8; 32];
    let nonce = [7u8; 12];
    let message = b"Hello, secure world!";

    let ciphertext = encrypt(&key, &nonce, message).unwrap();
    assert_ne!(ciphertext, message);

    let decrypted = decrypt(&key, &nonce, &ciphertext).unwrap();
    assert_eq!(decrypted, message);

    let wrong_nonce = [8u8; 12];
    assert!(decrypt(&key, &wrong_nonce, &ciphertext).is_err());

    let wrong_key = [43u8; 32];
    assert!(decrypt(&wrong_key, &nonce, &ciphertext).is_err());
}
