//! The encrypted body of a chat message: nonce and ciphertext, in base64.
use vstd::prelude::*;
use base64::{Engine, prelude::BASE64_STANDARD};
use vstd::utf8::{decode_utf8, encode_utf8, valid_utf8};
use crate::error::MessengerError;
use crate::secure::exchange::{chacha_open, chacha_seal, decrypt, encrypt, sealable};

verus! {

broadcast use vstd::utf8::encode_utf8_valid_utf8, vstd::utf8::encode_utf8_decode_utf8;

/// The length of a ChaCha20-Poly1305 nonce, which leads an encrypted payload.
pub const NONCE_LEN: usize = 12;

/// Name of the standard (padded) base64 text of `bytes`.
pub uninterp spec fn base64_text(bytes: Seq<u8>) -> Seq<char>;

/// Name of what decoding `text` as standard base64 gives, none when it is not
/// valid base64.
pub uninterp spec fn base64_bytes(text: Seq<char>) -> Option<Seq<u8>>;

/// Bytes few enough for base64 to count its output in a `usize`.
pub open spec fn encodable(len: nat) -> bool {
    len <= usize::MAX / 2
}

/// Calls `BASE64_STANDARD.encode`, whose result is named. The crate panics when
/// the output length overflows a `usize`; `requires` leaves those inputs out.
#[verifier::external_body]
fn base64_encode(bytes: &[u8]) -> (s: String)
    requires
        encodable(bytes@.len()),
    ensures
        s@ == base64_text(bytes@),
{
    BASE64_STANDARD.encode(bytes)
}

/// Calls `BASE64_STANDARD.decode` on the text's bytes; the result is named.
/// Beside it the contract states that decoding the encoding of some bytes
/// gives those bytes back, which the crate's canonical padded encoding ensures.
#[verifier::external_body]
fn base64_decode(text: &str) -> (r: Option<Vec<u8>>)
    ensures
        r is Some <==> base64_bytes(text@) is Some,
        r matches Some(b) ==> base64_bytes(text@) == Some(b@),
        forall|b: Seq<u8>|
            #![trigger base64_text(b)]
            base64_text(b) == text@ ==> r is Some && r->Some_0@ == b,
{
    BASE64_STANDARD.decode(text).ok()
}

/// Calls `String::from_utf8`: the bytes as text when they are valid UTF-8, as
/// std documents, none otherwise.
#[verifier::external_body]
fn utf8_text(bytes: Vec<u8>) -> (r: Option<String>)
    ensures
        r is Some <==> valid_utf8(bytes@),
        r matches Some(s) ==> s@ == decode_utf8(bytes@),
{
    String::from_utf8(bytes).ok()
}

/// Calls `rand::random::<[u8; 12]>()`. The nonce is random; nothing is claimed of it.
#[verifier::external_body]
pub(crate) fn random_nonce() -> (n: [u8; 12]) {
    rand::random::<[u8; 12]>()
}

/// The payload that carries `content` encrypted under `key` with `nonce`: the
/// nonce followed by the ciphertext of the content's UTF-8 bytes, in base64.
pub open spec fn sealed_payload(key: Seq<u8>, nonce: Seq<u8>, content: Seq<char>) -> Seq<char> {
    base64_text(nonce + chacha_seal(key, nonce, encode_utf8(content)))
}

/// What opening a payload gives: the base64 is decoded, its first 12 bytes are
/// the nonce, the rest is decrypted and read as UTF-8.
pub open spec fn opened_payload(key: Seq<u8>, text: Seq<char>) -> Result<Seq<char>, MessengerError> {
    match base64_bytes(text) {
        None => Err(MessengerError::PayloadNotBase64),
        Some(b) => if b.len() < 12 {
            Err(MessengerError::PayloadTooShort)
        } else {
            match chacha_open(key, b.take(12), b.skip(12)) {
                None => Err(MessengerError::DecryptionFailed),
                Some(p) => if valid_utf8(p) {
                    Ok(decode_utf8(p))
                } else {
                    Err(MessengerError::PayloadNotUtf8)
                },
            }
        },
    }
}

/// A content short enough to be encrypted and encoded.
pub open spec fn content_fits(content: Seq<char>) -> bool {
    encode_utf8(content).len() + 28 <= usize::MAX / 2
}

/// Encrypts `content` under `key` with `nonce` and encodes nonce and ciphertext
/// in base64.
pub fn seal_message_payload(key: &[u8; 32], nonce: &[u8; 12], content: &str) -> (res: Result<String, MessengerError>)
    requires
        content_fits(content@),
    ensures
        sealable(encode_utf8(content@).len()) ==> (res matches Ok(s) && s@ == sealed_payload(key@, nonce@, content@)),
        !sealable(encode_utf8(content@).len()) ==> res == Err::<String, MessengerError>(MessengerError::EncryptionFailed),
{
    let ciphertext = encrypt(key, nonce, content.as_bytes())?;
    let mut bytes: Vec<u8> = Vec::new();
    let mut i: usize = 0;
    while i < NONCE_LEN
        invariant
            i <= 12,
            bytes@ == nonce@.take(i as int),
        decreases 12 - i,
    {
        bytes.push(nonce[i]);
        proof {
            assert(nonce@.take(i + 1) =~= nonce@.take(i as int).push(nonce@[i as int]));
        }
        i = i + 1;
    }
    let n = ciphertext.len();
    let mut j: usize = 0;
    while j < n
        invariant
            n == ciphertext@.len(),
            j <= n,
            bytes@ == nonce@ + ciphertext@.take(j as int),
        decreases n - j,
    {
        proof {
            assert(nonce@.take(12) =~= nonce@);
        }
        bytes.push(ciphertext[j]);
        proof {
            assert(ciphertext@.take(j + 1) =~= ciphertext@.take(j as int).push(ciphertext@[j as int]));
        }
        j = j + 1;
    }
    proof {
        assert(nonce@.take(12) =~= nonce@);
        assert(ciphertext@.take(n as int) =~= ciphertext@);
    }
    Ok(base64_encode(bytes.as_slice()))
}

/// Decodes and decrypts a payload sealed under `key`. Opening the payload
/// sealed from a content under the same key, whatever its nonce, gives that
/// content back.
pub fn open_message_payload(key: &[u8; 32], payload: &str) -> (res: Result<String, MessengerError>)
    ensures
        match opened_payload(key@, payload@) {
            Ok(c) => res matches Ok(s) && s@ == c,
            Err(e) => res == Err::<String, MessengerError>(e),
        },
        forall|nonce: Seq<u8>, content: Seq<char>|
            #![trigger sealed_payload(key@, nonce, content)]
            nonce.len() == 12 && sealable(encode_utf8(content).len()) && sealed_payload(key@, nonce, content) == payload@
                ==> res is Ok && res->Ok_0@ == content,
{
    let bytes = match base64_decode(payload) {
        Some(b) => b,
        None => {
            return Err(MessengerError::PayloadNotBase64);
        },
    };
    if bytes.len() < NONCE_LEN {
        return Err(MessengerError::PayloadTooShort);
    }
    let mut nonce: [u8; 12] = [0u8; 12];
    let mut i: usize = 0;
    while i < NONCE_LEN
        invariant
            i <= 12,
            bytes@.len() >= 12,
            forall|k: int| 0 <= k < i ==> nonce@[k] == bytes@[k],
        decreases 12 - i,
    {
        nonce[i] = bytes[i];
        i = i + 1;
    }
    let mut ciphertext: Vec<u8> = Vec::new();
    let n = bytes.len();
    let mut j: usize = NONCE_LEN;
    while j < n
        invariant
            n == bytes@.len(),
            12 <= j <= n,
            ciphertext@ == bytes@.subrange(12, j as int),
        decreases n - j,
    {
        ciphertext.push(bytes[j]);
        proof {
            assert(bytes@.subrange(12, j + 1) =~= bytes@.subrange(12, j as int).push(bytes@[j as int]));
        }
        j = j + 1;
    }
    proof {
        assert(nonce@ =~= bytes@.take(12));
        assert(ciphertext@ =~= bytes@.skip(12));
        assert forall|nonce0: Seq<u8>, content0: Seq<char>|
            nonce0.len() == 12 && #[trigger] sealed_payload(key@, nonce0, content0) == payload@ implies nonce@ == nonce0
                && ciphertext@ == chacha_seal(key@, nonce0, encode_utf8(content0)) by {
            let sealed = chacha_seal(key@, nonce0, encode_utf8(content0));
            assert(base64_text(nonce0 + sealed) == payload@);
            assert(bytes@ == nonce0 + sealed);
            assert(bytes@.take(12) =~= nonce0);
            assert(bytes@.skip(12) =~= sealed);
        }
    }
    let plain = match decrypt(key, &nonce, ciphertext.as_slice()) {
        Ok(p) => p,
        Err(e) => {
            return Err(e);
        },
    };
    match utf8_text(plain) {
        Some(s) => Ok(s),
        None => Err(MessengerError::PayloadNotUtf8),
    }
}

} // verus!
