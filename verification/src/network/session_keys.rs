//! Ephemeral X25519 key agreement.
use vstd::prelude::*;
use rand_core::OsRng;
use x25519_dalek::{EphemeralSecret, PublicKey};

verus! {

#[verifier::external_type_specification]
#[verifier::external_body]
pub struct ExEphemeralSecret(x25519_dalek::EphemeralSecret);

#[verifier::external_type_specification]
#[verifier::external_body]
pub struct ExPublicKey(x25519_dalek::PublicKey);

/// Calls `EphemeralSecret::random_from_rng(OsRng)` and `PublicKey::from` on it.
/// The secret is random; nothing is claimed of either value.
#[verifier::external_body]
pub fn generate_ephemeral_keypair() -> (pair: (EphemeralSecret, PublicKey)) {
    let secret = EphemeralSecret::random_from_rng(&mut OsRng);
    let public = PublicKey::from(&secret);
    (secret, public)
}

/// Calls `EphemeralSecret::diffie_hellman` and returns the shared secret's bytes.
/// The result depends on the secret's bytes, which the secret type keeps
/// private; nothing is claimed of it.
#[verifier::external_body]
pub fn derive_shared_secret(secret: EphemeralSecret, their_public: &PublicKey) -> (shared: [u8; 32]) {
    let shared = secret.diffie_hellman(their_public);
    *shared.as_bytes()
}

} // verus!
