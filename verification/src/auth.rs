//! The authentication gate: bearer-token extraction, the prefix used to
//! narrow the candidate set, and the decrypt-and-compare scan that resolves
//! an opaque token to the credential it matches.
//!
//! The scan is verified over an arbitrary candidate list: whatever records
//! the store hands back, the first match returned really decrypts to the
//! caller's token, every earlier candidate really does not match, and a
//! rejection means no candidate matches at all.

use vstd::prelude::*;
use vstd::string::StrSliceExecFns;
use crate::entities::{Project, ProjectApiKey};
use crate::errors::AppError;
use crate::text::{spec_starts_with, spec_trim, starts_with_str, str_eq, trim_str};
use crate::vault::{spec_decrypted, EncryptionService};

verus! {

/// The token carried by an authorization header beginning with `Bearer `:
/// the rest of the header with surrounding whitespace removed.
pub open spec fn spec_header_token(h: Seq<char>) -> Seq<char> {
    spec_trim(h.skip(7))
}

/// Extracts and validates the bearer token of an authorization header.
/// Rejects a missing header, one without the `Bearer ` scheme, an empty
/// token, and a token that does not carry the public-key prefix `pk_`;
/// each rejection is an authentication error.
pub fn parse_bearer_token(header: Option<&String>) -> (r: Result<String, AppError>)
    ensures
        r matches Ok(t) ==> (header matches Some(h)
            && spec_starts_with(h@, "Bearer "@)
            && t@ == spec_header_token(h@)
            && t@.len() > 0
            && spec_starts_with(t@, "pk_"@)),
        header is None ==> (r matches Err(e)
            && e matches AppError::AuthenticationError(m)
            && m@ == "Missing Authorization header"@),
        header matches Some(h) && !spec_starts_with(h@, "Bearer "@) ==> (r matches Err(e)
            && e matches AppError::AuthenticationError(m)
            && m@ == "Invalid Authorization header format"@),
        header matches Some(h) && spec_starts_with(h@, "Bearer "@)
            && spec_header_token(h@).len() == 0 ==> (r matches Err(e)
            && e matches AppError::AuthenticationError(m)
            && m@ == "Empty API key"@),
        header matches Some(h) && spec_starts_with(h@, "Bearer "@)
            && spec_header_token(h@).len() > 0
            && !spec_starts_with(spec_header_token(h@), "pk_"@) ==> (r matches Err(e)
            && e matches AppError::AuthenticationError(m)
            && m@ == "Invalid API key format"@),
        header matches Some(h) && spec_starts_with(h@, "Bearer "@)
            && spec_header_token(h@).len() > 0
            && spec_starts_with(spec_header_token(h@), "pk_"@) ==> r is Ok,
{
    let h = match header {
        Some(h) => h,
        None => {
            return Err(AppError::AuthenticationError("Missing Authorization header".to_owned()));
        },
    };
    proof {
        reveal_strlit("Bearer ");
    }
    if !starts_with_str(h.as_str(), "Bearer ") {
        return Err(AppError::AuthenticationError("Invalid Authorization header format".to_owned()));
    }
    let rest = h.as_str().substring_char(7, h.as_str().unicode_len());
    let token = trim_str(rest);
    proof {
        assert(rest@ =~= h@.skip(7));
    }
    if token.as_str().unicode_len() == 0 {
        return Err(AppError::AuthenticationError("Empty API key".to_owned()));
    }
    if !starts_with_str(token.as_str(), "pk_") {
        return Err(AppError::AuthenticationError("Invalid API key format".to_owned()));
    }
    Ok(token)
}

/// The index prefix of a token: its first nine characters (`pk_` plus six),
/// or the whole token where it is shorter.  An optimization for narrowing
/// the candidate query, never a security boundary.
pub fn key_prefix(api_key: &str) -> (r: String)
    ensures
        api_key@.len() >= 9 ==> r@ == api_key@.take(9),
        api_key@.len() < 9 ==> r@ == api_key@,
{
    let n = api_key.unicode_len();
    if n >= 9 {
        api_key.substring_char(0, 9).to_owned()
    } else {
        api_key.to_owned()
    }
}

/// Whether a stored credential matches a presented token at time `now`:
/// it is active, not expired, and its protected secret decrypts under the
/// vault key to exactly the token.
pub open spec fn spec_candidate_matches(
    key: Seq<u8>,
    k: ProjectApiKey,
    token: Seq<char>,
    now: i64,
) -> bool {
    k.is_active && !k.spec_expired(now) && spec_decrypted(key, k.key_hash@) == Some(token)
}

/// Scans the candidate credentials in order and returns the index of the
/// first one that matches the presented token.  A candidate that is
/// expired, inactive, undecryptable, or decrypts to a different secret is
/// skipped — one corrupted record never aborts the scan.  When no candidate
/// matches, the rejection discloses nothing beyond "Invalid API key".
pub fn find_matching_key(
    vault: &EncryptionService,
    api_key: &str,
    candidates: &Vec<ProjectApiKey>,
    now: i64,
) -> (r: Result<usize, AppError>)
    ensures
        r matches Ok(i) ==> i < candidates@.len()
            && spec_candidate_matches(vault.key(), candidates@[i as int], api_key@, now)
            && (forall|j: int| 0 <= j < i
                ==> !spec_candidate_matches(vault.key(), candidates@[j], api_key@, now)),
        r matches Err(e) ==> (e matches AppError::AuthenticationError(m)
            && m@ == "Invalid API key"@
            && (forall|j: int| 0 <= j < candidates@.len()
                ==> !spec_candidate_matches(vault.key(), candidates@[j], api_key@, now))),
{
    let n = candidates.len();
    let mut i: usize = 0;
    while i < n
        invariant
            n == candidates@.len(),
            i <= n,
            forall|j: int| 0 <= j < i
                ==> !spec_candidate_matches(vault.key(), candidates@[j], api_key@, now),
        decreases n - i,
    {
        let candidate = &candidates[i];
        let mut skip = !candidate.is_active;
        if !skip {
            if let Some(expires_at) = candidate.expires_at {
                if now > expires_at {
                    skip = true;
                }
            }
        }
        if !skip {
            match vault.decrypt(candidate.key_hash.as_str()) {
                Ok(decrypted) => {
                    if str_eq(decrypted.as_str(), api_key) {
                        return Ok(i);
                    }
                },
                Err(_) => {
                    // An undecryptable record counts as "no match" and the
                    // scan continues with the remaining candidates.
                },
            }
        }
        i = i + 1;
    }
    Err(AppError::AuthenticationError("Invalid API key".to_owned()))
}

/// Gatekeeping after a credential match: only an `Active` project may use
/// the gateway; anything else is an authorization error, not an
/// authentication error.
pub fn authorize_project(project: &Project) -> (r: Result<(), AppError>)
    ensures
        r.is_ok() == project.status is Active,
        r matches Err(e) ==> (e matches AppError::AuthorizationError(m)
            && m@ == "Project is not active"@),
{
    if project.is_active() {
        Ok(())
    } else {
        Err(AppError::AuthorizationError("Project is not active".to_owned()))
    }
}

/// Authentication correctness: against an active, non-expired credential
/// whose protected secret decrypts to `secret`, a presented token matches
/// exactly when it equals `secret` — sharing the index prefix is never
/// enough.
pub proof fn lemma_authentication_correctness(
    key: Seq<u8>,
    k: ProjectApiKey,
    secret: Seq<char>,
    attempt: Seq<char>,
    now: i64,
)
    requires
        k.is_active,
        !k.spec_expired(now),
        spec_decrypted(key, k.key_hash@) == Some(secret),
    ensures
        spec_candidate_matches(key, k, attempt, now) <==> attempt == secret,
{
}

/// An expired credential never matches, whatever token is presented and
/// even if its secret would decrypt to exactly that token.
pub proof fn lemma_expired_credential_never_matches(
    key: Seq<u8>,
    k: ProjectApiKey,
    attempt: Seq<char>,
    now: i64,
)
    requires
        k.spec_expired(now),
    ensures
        !spec_candidate_matches(key, k, attempt, now),
{
}

} // verus!
