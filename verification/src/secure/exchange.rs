//! Authenticated encryption of message contents with ChaCha20-Poly1305.
use vstd::prelude::*;
use chacha20poly1305::aead::{Aead, KeyInit};
use chacha20poly1305::{ChaCha20Poly1305, Key, Nonce};
use crate::error::MessengerError;

verus! {

#[verifier::external_type_specification]
#[verifier::external_body]
pub struct ExAeadError(chacha20poly1305::Error);

/// Name of the ciphertext (with its 16-byte tag appended) that ChaCha20-Poly1305
/// produces for `plaintext` under `key` and `nonce`, with no associated data.
pub uninterp spec fn chacha_seal(key: Seq<u8>, nonce: Seq<u8>, plaintext: Seq<u8>) -> Seq<u8>;

/// Name of what ChaCha20-Poly1305 decryption of `ciphertext` under `key` and
/// `nonce` gives: the plaintext when the tag authenticates it, none otherwise.
pub uninterp spec fn chacha_open(key: Seq<u8>, nonce: Seq<u8>, ciphertext: Seq<u8>) -> Option<Seq<u8>>;

/// A message short enough for one ChaCha20 stream: fewer than 2^32 - 1 blocks.
pub open spec fn sealable(len: nat) -> bool {
    len / 64 < 0xFFFF_FFFF
}

/// Calls `ChaCha20Poly1305::new(key).encrypt(nonce, plaintext)`. As the crate's
/// source shows, it fails exactly when the plaintext has 2^32 - 1 blocks of 64
/// bytes or more, and otherwise appends a 16-byte tag; the ciphertext is named.
#[verifier::external_body]
fn chacha_encrypt(key: &[u8; 32], nonce: &[u8; 12], plaintext: &[u8]) -> (r: Result<Vec<u8>, chacha20poly1305::Error>)
    ensures
        r is Ok <==> sealable(plaintext@.len()),
        r matches Ok(c) ==> c@ == chacha_seal(key@, nonce@, plaintext@) && c@.len() == plaintext@.len()
            + 16,
{
    ChaCha20Poly1305::new(Key::from_slice(key)).encrypt(Nonce::from_slice(nonce), plaintext)
}

/// Calls `ChaCha20Poly1305::new(key).decrypt(nonce, ciphertext)`. The result is
/// named; beside it the contract states the property that the crate documents
/// and its source implements: a ciphertext sealed from a message under the
/// same key and nonce decrypts to that message. Nothing is claimed of other
/// ciphertexts (a wrong key or nonce fails only with overwhelming probability).
#[verifier::external_body]
fn chacha_decrypt(key: &[u8; 32], nonce: &[u8; 12], ciphertext: &[u8]) -> (r: Result<Vec<u8>, chacha20poly1305::Error>)
    ensures
        r is Ok <==> chacha_open(key@, nonce@, ciphertext@) is Some,
        r matches Ok(p) ==> chacha_open(key@, nonce@, ciphertext@) == Some(p@),
        forall|m: Seq<u8>|
            #![trigger chacha_seal(key@, nonce@, m)]
            sealable(m.len()) && chacha_seal(key@, nonce@, m) == ciphertext@ ==> r is Ok && r->Ok_0@ == m,
{
    ChaCha20Poly1305::new(Key::from_slice(key)).decrypt(Nonce::from_slice(nonce), ciphertext)
}

/// Encrypts `plaintext` under `key` and `nonce`; a plaintext of 2^32 - 1 blocks
/// or more is refused.
pub fn encrypt(key: &[u8; 32], nonce: &[u8; 12], plaintext: &[u8]) -> (res: Result<Vec<u8>, MessengerError>)
    ensures
        sealable(plaintext@.len()) ==> (res matches Ok(c) && c@ == chacha_seal(key@, nonce@, plaintext@)
            && c@.len() == plaintext@.len() + 16),
        !sealable(plaintext@.len()) ==> res == Err::<Vec<u8>, MessengerError>(MessengerError::EncryptionFailed),
{
    match chacha_encrypt(key, nonce, plaintext) {
        Ok(c) => Ok(c),
        Err(_) => Err(MessengerError::EncryptionFailed),
    }
}

/// Decrypts and authenticates `ciphertext` under `key` and `nonce`.
pub fn decrypt(key: &[u8; 32], nonce: &[u8; 12], ciphertext: &[u8]) -> (res: Result<Vec<u8>, MessengerError>)
    ensures
        match chacha_open(key@, nonce@, ciphertext@) {
            Some(p) => res matches Ok(q) && q@ == p,
            None => res == Err::<Vec<u8>, MessengerError>(MessengerError::DecryptionFailed),
        },
        forall|m: Seq<u8>|
            sealable(m.len()) && #[trigger] chacha_seal(key@, nonce@, m) == ciphertext@ ==> (res matches Ok(p) && p@ == m),
{
    match chacha_decrypt(key, nonce, ciphertext) {
        Ok(p) => Ok(p),
        Err(_) => Err(MessengerError::DecryptionFailed),
    }
}

} // verus!
