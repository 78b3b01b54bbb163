//! Trusted bindings to the cryptographic and encoding crates the gateway
//! relies on.  Each wrapper states, over named or directly specified results,
//! exactly what the outside function's documentation promises; everything
//! built on top of them is verified against these contracts.

use vstd::prelude::*;
use aes_gcm::{Aes256Gcm, Nonce};
use aes_gcm::aead::{Aead, KeyInit};
use base64::Engine;
use base64::engine::general_purpose::STANDARD;
use rand::RngCore;
use rand::rngs::OsRng;
use sha2::{Digest, Sha256};

verus! {

/// The base64 (standard alphabet, padded) encoding of a byte sequence.
pub uninterp spec fn b64_chars_of(bytes: Seq<u8>) -> Seq<char>;

/// What base64 decoding yields on a character sequence, `None` on reject.
pub uninterp spec fn b64_bytes_of(text: Seq<char>) -> Option<Seq<u8>>;

/// The AES-256-GCM ciphertext-with-tag for a key, nonce and plaintext.
pub uninterp spec fn aead_sealed(key: Seq<u8>, nonce: Seq<u8>, plaintext: Seq<u8>) -> Seq<u8>;

/// What AES-256-GCM decryption yields; `None` when the tag does not verify.
pub uninterp spec fn aead_opened(key: Seq<u8>, nonce: Seq<u8>, ct: Seq<u8>) -> Option<Seq<u8>>;

/// The SHA-256 digest of a byte sequence.
pub uninterp spec fn sha256_of(bytes: Seq<u8>) -> Seq<u8>;

/// Whether a bcrypt hash string accepts a password.
pub uninterp spec fn bcrypt_accepts(password: Seq<u8>, hash: Seq<char>) -> bool;

/// Whether a string parses as a well-formed bcrypt hash, so that
/// verification against it can run at all.
pub uninterp spec fn bcrypt_parses(hash: Seq<char>) -> bool;

/// Relies on base64's `Engine::encode` with the standard padded alphabet;
/// its documentation gives that `decode` inverts it.
#[verifier::external_body]
pub(crate) fn b64_encode(bytes: &[u8]) -> (r: String)
    ensures
        r@ == b64_chars_of(bytes@),
        b64_bytes_of(r@) == Some(bytes@),
{
    STANDARD.encode(bytes)
}

/// Relies on base64's `Engine::decode` with the standard padded alphabet:
/// the result is a function of the input text alone.
#[verifier::external_body]
pub(crate) fn b64_decode(text: &str) -> (r: Result<Vec<u8>, String>)
    ensures
        r.is_ok() == b64_bytes_of(text@) is Some,
        r matches Ok(b) ==> b64_bytes_of(text@) == Some(b@),
{
    match STANDARD.decode(text) {
        Ok(b) => Ok(b),
        Err(e) => Err(e.to_string()),
    }
}

/// Relies on aes-gcm's `Aead::encrypt` (tag appended after the ciphertext)
/// and `KeyInit::new_from_slice`; the aead documentation gives that
/// decryption with the same key and nonce restores the plaintext.  With no
/// associated data, encryption fails only above the GCM plaintext cap of
/// 2^36 bytes, so it succeeds on anything below 2^32 bytes.
#[verifier::external_body]
pub(crate) fn aead_seal(key: &[u8], nonce: &[u8], plaintext: &[u8]) -> (r: Result<Vec<u8>, ()>)
    requires
        key@.len() == 32,
        nonce@.len() == 12,
    ensures
        plaintext@.len() < 0x1_0000_0000 ==> r is Ok,
        r matches Ok(ct) ==> ct@ == aead_sealed(key@, nonce@, plaintext@)
            && ct@.len() == plaintext@.len() + 16
            && aead_opened(key@, nonce@, ct@) == Some(plaintext@),
{
    let cipher = match Aes256Gcm::new_from_slice(key) {
        Ok(c) => c,
        Err(_) => return Err(()),
    };
    match cipher.encrypt(Nonce::from_slice(nonce), plaintext) {
        Ok(ct) => Ok(ct),
        Err(_) => Err(()),
    }
}

/// Relies on aes-gcm's `Aead::decrypt`: deterministic in key, nonce and
/// ciphertext, and failing whenever the authentication tag does not verify.
#[verifier::external_body]
pub(crate) fn aead_open(key: &[u8], nonce: &[u8], ciphertext: &[u8]) -> (r: Result<Vec<u8>, ()>)
    requires
        key@.len() == 32,
        nonce@.len() == 12,
    ensures
        r.is_ok() == aead_opened(key@, nonce@, ciphertext@) is Some,
        r matches Ok(p) ==> aead_opened(key@, nonce@, ciphertext@) == Some(p@),
{
    let cipher = match Aes256Gcm::new_from_slice(key) {
        Ok(c) => c,
        Err(_) => return Err(()),
    };
    match cipher.decrypt(Nonce::from_slice(nonce), ciphertext) {
        Ok(p) => Ok(p),
        Err(_) => Err(()),
    }
}

/// Relies on rand's `OsRng::fill_bytes`; nothing can be said of the values.
#[verifier::external_body]
pub(crate) fn random_bytes(n: usize) -> (r: Vec<u8>)
    ensures
        r@.len() == n,
{
    let mut buf = vec![0u8; n];
    OsRng.fill_bytes(&mut buf);
    buf
}

/// Relies on sha2's `Sha256`: a 32-byte digest, a function of the input alone.
#[verifier::external_body]
pub(crate) fn sha256(data: &[u8]) -> (r: Vec<u8>)
    ensures
        r@ == sha256_of(data@),
        r@.len() == 32,
{
    let mut hasher = Sha256::new();
    hasher.update(data);
    hasher.finalize().to_vec()
}

/// The lowercase hex character for a value below 16.
pub open spec fn spec_hex_digit(d: int) -> char {
    if d == 0 { '0' }
    else if d == 1 { '1' }
    else if d == 2 { '2' }
    else if d == 3 { '3' }
    else if d == 4 { '4' }
    else if d == 5 { '5' }
    else if d == 6 { '6' }
    else if d == 7 { '7' }
    else if d == 8 { '8' }
    else if d == 9 { '9' }
    else if d == 10 { 'a' }
    else if d == 11 { 'b' }
    else if d == 12 { 'c' }
    else if d == 13 { 'd' }
    else if d == 14 { 'e' }
    else { 'f' }
}

/// The lowercase hex encoding of a byte sequence, two digits per byte.
pub open spec fn spec_hex_lower(bytes: Seq<u8>) -> Seq<char>
    decreases bytes.len(),
{
    if bytes.len() == 0 {
        Seq::empty()
    } else {
        seq![
            spec_hex_digit(bytes.first() as int / 16),
            spec_hex_digit((bytes.first() % 16) as int),
        ] + spec_hex_lower(bytes.drop_first())
    }
}

/// A hex encoding is two characters per byte.
pub proof fn lemma_hex_lower_len(bytes: Seq<u8>)
    ensures
        spec_hex_lower(bytes).len() == 2 * bytes.len(),
    decreases bytes.len(),
{
    if bytes.len() > 0 {
        lemma_hex_lower_len(bytes.drop_first());
    }
}

/// Relies on hex's `encode`: lowercase hex, two digits per byte, high
/// nibble first.
#[verifier::external_body]
pub(crate) fn hex_lower(data: &[u8]) -> (r: String)
    ensures
        r@ == spec_hex_lower(data@),
{
    hex::encode(data)
}

/// Relies on bcrypt's `hash` with its default cost: the produced hash is a
/// well-formed (canonical 60-character) hash that verifies against the
/// hashed password; its random salt keeps the value itself unnamed.
#[verifier::external_body]
pub(crate) fn bcrypt_hash(password: &str) -> (r: Result<String, String>)
    ensures
        r matches Ok(h) ==> bcrypt_parses(h@)
            && bcrypt_accepts(vstd::utf8::encode_utf8(password@), h@),
{
    match bcrypt::hash(password, bcrypt::DEFAULT_COST) {
        Ok(h) => Ok(h),
        Err(e) => Err(e.to_string()),
    }
}

/// Relies on bcrypt's `verify`: a function of the password and hash alone,
/// which fails exactly when the hash itself does not parse (the password is
/// only ever truncated, never rejected).
#[verifier::external_body]
pub(crate) fn bcrypt_verify(password: &str, hash: &str) -> (r: Result<bool, String>)
    ensures
        r.is_ok() == bcrypt_parses(hash@),
        r matches Ok(b) ==> b == bcrypt_accepts(vstd::utf8::encode_utf8(password@), hash@),
{
    match bcrypt::verify(password, hash) {
        Ok(b) => Ok(b),
        Err(e) => Err(e.to_string()),
    }
}

/// Relies on std's `String::from_utf8`: succeeds exactly on valid UTF-8 and
/// decodes it; vstd's `valid_utf8`/`decode_utf8` give that meaning.
#[verifier::external_body]
pub(crate) fn utf8_to_string(bytes: Vec<u8>) -> (r: Result<String, String>)
    ensures
        r.is_ok() == vstd::utf8::valid_utf8(bytes@),
        r matches Ok(s) ==> s@ == vstd::utf8::decode_utf8(bytes@),
{
    match String::from_utf8(bytes) {
        Ok(s) => Ok(s),
        Err(e) => Err(e.to_string()),
    }
}

} // verus!
