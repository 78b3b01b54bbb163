//! The credential vault: AES-256-GCM encryption of secrets at rest, with a
//! single 256-bit key provisioned from a base64 value, plus the one-way
//! hashing service used for the non-reversible credential variant.
//!
//! A produced blob is `base64(nonce(12 bytes) || ciphertext+tag)`, and
//! [`EncryptionService::encrypt`] guarantees that [`spec_decrypted`] — the
//! exact model of [`EncryptionService::decrypt`] — restores the plaintext.

use vstd::prelude::*;
use crate::crypto;
use crate::crypto::{aead_opened, b64_bytes_of, bcrypt_accepts, sha256_of, spec_hex_lower};
use crate::errors::AppError;
use vstd::utf8::{valid_utf8, decode_utf8, encode_utf8};
use vstd::string::StringExecFns;

verus! {

/// What decrypting `blob` under `key` yields: base64-decode, split off the
/// 96-bit nonce, open the AES-256-GCM ciphertext, and decode UTF-8; `None`
/// as soon as any step rejects.
pub open spec fn spec_decrypted(key: Seq<u8>, blob: Seq<char>) -> Option<Seq<char>> {
    match b64_bytes_of(blob) {
        Option::None => Option::None,
        Option::Some(combined) => if combined.len() < 12 {
            Option::None
        } else {
            match aead_opened(key, combined.take(12), combined.skip(12)) {
                Option::None => Option::None,
                Option::Some(pt) => if valid_utf8(pt) {
                    Option::Some(decode_utf8(pt))
                } else {
                    Option::None
                },
            }
        },
    }
}

/// Copies `v[from..to]` into a fresh vector.
fn vec_subrange(v: &Vec<u8>, from: usize, to: usize) -> (r: Vec<u8>)
    requires
        from <= to <= v@.len(),
    ensures
        r@ == v@.subrange(from as int, to as int),
{
    let mut r: Vec<u8> = Vec::new();
    let mut i: usize = from;
    while i < to
        invariant
            from <= i <= to <= v@.len(),
            r@ == v@.subrange(from as int, i as int),
        decreases to - i,
    {
        r.push(v[i]);
        proof {
            assert(v@.subrange(from as int, i + 1) =~= v@.subrange(from as int, i as int).push(v@[i as int]));
        }
        i = i + 1;
    }
    r
}

/// AES-256-GCM encryption service; stateless after construction.
pub struct EncryptionService {
    key: Vec<u8>,
}

impl EncryptionService {
    /// The vault holds exactly the 32 key bytes it was built from.
    #[verifier::type_invariant]
    spec fn wf(self) -> bool {
        self.key@.len() == 32
    }

    /// The symmetric key, as contracts speak of it.
    pub closed spec fn key(self) -> Seq<u8> {
        self.key@
    }

    /// Builds the vault from a base64-encoded 256-bit key, failing fast on
    /// anything that does not decode to exactly 32 bytes.
    pub fn new(base64_key: &str) -> (r: Result<Self, AppError>)
        ensures
            r.is_ok() == (b64_bytes_of(base64_key@) matches Some(k) && k.len() == 32),
            r matches Ok(v) ==> b64_bytes_of(base64_key@) == Some(v.key()),
            r matches Err(e) ==> e is ConfigError,
    {
        let key = match crypto::b64_decode(base64_key) {
            Ok(k) => k,
            Err(e) => {
                return Err(AppError::ConfigError("Invalid encryption key: ".to_owned().concat(e.as_str())));
            },
        };
        if key.len() != 32 {
            return Err(AppError::ConfigError("Encryption key must be 32 bytes (256 bits)".to_owned()));
        }
        Ok(EncryptionService { key })
    }

    /// Encrypts a secret under a fresh random 96-bit nonce.  Success is owed
    /// to every plaintext below the cipher's size cap; the blob decodes to
    /// `nonce(12 bytes) || ciphertext+tag(16 bytes)`; and whatever blob comes
    /// out, decrypting it restores exactly the plaintext.
    pub fn encrypt(&self, plaintext: &str) -> (r: Result<String, AppError>)
        ensures
            encode_utf8(plaintext@).len() < 0x1_0000_0000 ==> r is Ok,
            r matches Ok(blob) ==> spec_decrypted(self.key(), blob@) == Some(plaintext@),
            r matches Ok(blob) ==> (b64_bytes_of(blob@) matches Some(c)
                && c.len() == 12 + encode_utf8(plaintext@).len() + 16),
            r matches Err(e) ==> e is EncryptionError,
    {
        proof {
            use_type_invariant(&*self);
        }
        let nonce = crypto::random_bytes(12);
        let pt_bytes = plaintext.as_bytes();
        let sealed = match crypto::aead_seal(self.key.as_slice(), nonce.as_slice(), pt_bytes) {
            Ok(ct) => ct,
            Err(_) => {
                return Err(AppError::EncryptionError("Encryption failed".to_owned()));
            },
        };
        let mut combined = nonce;
        let ghost nonce_view = combined@;
        let mut tail = sealed;
        let ghost sealed_view = tail@;
        combined.append(&mut tail);
        let blob = crypto::b64_encode(combined.as_slice());
        proof {
            assert(combined@.take(12) =~= nonce_view);
            assert(combined@.skip(12) =~= sealed_view);
            vstd::utf8::encode_utf8_valid_utf8(plaintext@);
            vstd::utf8::encode_utf8_decode_utf8(plaintext@);
        }
        Ok(blob)
    }

    /// Decrypts a blob produced by [`Self::encrypt`]; fails with an
    /// encryption error exactly when [`spec_decrypted`] rejects, for bad
    /// base64, a truncated blob, a failed tag, or invalid UTF-8.
    pub fn decrypt(&self, encrypted: &str) -> (r: Result<String, AppError>)
        ensures
            r.is_ok() == spec_decrypted(self.key(), encrypted@) is Some,
            r matches Ok(p) ==> spec_decrypted(self.key(), encrypted@) == Some(p@),
            r matches Err(e) ==> e is EncryptionError,
    {
        proof {
            use_type_invariant(&*self);
        }
        let combined = match crypto::b64_decode(encrypted) {
            Ok(c) => c,
            Err(e) => {
                return Err(AppError::EncryptionError("Invalid ciphertext: ".to_owned().concat(e.as_str())));
            },
        };
        if combined.len() < 12 {
            return Err(AppError::EncryptionError("Ciphertext too short".to_owned()));
        }
        let nonce = vec_subrange(&combined, 0, 12);
        let ciphertext = vec_subrange(&combined, 12, combined.len());
        proof {
            assert(nonce@ =~= combined@.take(12));
            assert(ciphertext@ =~= combined@.skip(12));
        }
        let plaintext = match crypto::aead_open(self.key.as_slice(), nonce.as_slice(), ciphertext.as_slice()) {
            Ok(p) => p,
            Err(_) => {
                return Err(AppError::EncryptionError("Decryption failed".to_owned()));
            },
        };
        match crypto::utf8_to_string(plaintext) {
            Ok(s) => Ok(s),
            Err(e) => Err(AppError::EncryptionError("Invalid UTF-8: ".to_owned().concat(e.as_str()))),
        }
    }

    /// Generates a fresh random key in the form [`Self::new`] accepts.
    pub fn generate_key() -> (r: String)
        ensures
            b64_bytes_of(r@) matches Some(k) && k.len() == 32,
    {
        let key = crypto::random_bytes(32);
        crypto::b64_encode(key.as_slice())
    }
}

/// One-way hashing for API keys and content digests.
pub struct HashService;

impl HashService {
    /// Hashes an API key with bcrypt; the result is a well-formed hash that
    /// verifies against the key.
    pub fn hash_api_key(api_key: &str) -> (r: Result<String, AppError>)
        ensures
            r matches Ok(h) ==> crate::crypto::bcrypt_parses(h@)
                && bcrypt_accepts(encode_utf8(api_key@), h@),
            r matches Err(e) ==> e is InternalError,
    {
        match crypto::bcrypt_hash(api_key) {
            Ok(h) => Ok(h),
            Err(e) => Err(AppError::InternalError("Failed to hash API key: ".to_owned().concat(e.as_str()))),
        }
    }

    /// Verifies an API key against a bcrypt hash; fails exactly when the
    /// hash itself does not parse as one.
    pub fn verify_api_key(api_key: &str, hash: &str) -> (r: Result<bool, AppError>)
        ensures
            r.is_ok() == crate::crypto::bcrypt_parses(hash@),
            r matches Ok(b) ==> b == bcrypt_accepts(encode_utf8(api_key@), hash@),
            r matches Err(e) ==> e is InternalError,
    {
        match crypto::bcrypt_verify(api_key, hash) {
            Ok(b) => Ok(b),
            Err(e) => Err(AppError::InternalError("Failed to verify API key: ".to_owned().concat(e.as_str()))),
        }
    }

    /// The lowercase hex SHA-256 digest of a string's bytes: 64 characters.
    pub fn sha256(input: &str) -> (r: String)
        ensures
            r@ == spec_hex_lower(sha256_of(encode_utf8(input@))),
            r@.len() == 64,
    {
        let digest = crypto::sha256(input.as_bytes());
        let r = crypto::hex_lower(digest.as_slice());
        proof {
            crate::crypto::lemma_hex_lower_len(digest@);
        }
        r
    }
}

} // verus!

