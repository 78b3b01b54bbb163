//! Decisions of the provider-credential service: resolving a fetched key
//! to a usable plaintext secret, requiring a configured default, and
//! building a new encrypted key.  Fetching and persisting the records is
//! the store's business; every rule about them is verified here.

use vstd::prelude::*;
use vstd::string::StringExecFns;
use crate::entities::{spec_provider_name, LlmApiKey, LlmProvider};
use crate::errors::AppError;
use crate::vault::{spec_decrypted, EncryptionService};

verus! {

/// Decrypts a fetched provider key.  An inactive key is refused with an
/// authorization error even when it would decrypt; an active key yields
/// its plaintext secret exactly when the vault can open it.
pub fn decrypt_active_key(vault: &EncryptionService, key: &LlmApiKey) -> (r: Result<String, AppError>)
    ensures
        !key.is_active ==> (r matches Err(e)
            && e matches AppError::AuthorizationError(m)
            && m@ == "LLM API key is inactive"@),
        key.is_active ==> r.is_ok() == spec_decrypted(vault.key(), key.encrypted_key@) is Some,
        r matches Ok(s) ==> key.is_active
            && spec_decrypted(vault.key(), key.encrypted_key@) == Some(s@),
        key.is_active ==> (r matches Err(e) ==> e is EncryptionError),
{
    if !key.is_active {
        return Err(AppError::AuthorizationError("LLM API key is inactive".to_owned()));
    }
    vault.decrypt(key.encrypted_key.as_str())
}

/// Requires a default credential for a provider: the fetched record where
/// one exists, a configuration error naming the provider where none does.
pub fn require_default_key(found: Option<LlmApiKey>, provider: LlmProvider) -> (r: Result<LlmApiKey, AppError>)
    ensures
        found matches Some(k) ==> r == Ok::<LlmApiKey, AppError>(k),
        found is None ==> (r matches Err(e)
            && e matches AppError::ConfigError(m)
            && m@ == "No LLM API key configured for provider: "@ + spec_provider_name(provider)),
{
    match found {
        Some(k) => Ok(k),
        None => {
            let name = provider.to_lowercase();
            Err(AppError::ConfigError(
                "No LLM API key configured for provider: ".to_owned().concat(name.as_str()),
            ))
        },
    }
}

/// Builds a new provider credential: the secret encrypted under the vault
/// key, active, and not the provider default.  Success is owed to every
/// secret below the cipher's size cap, and whatever record comes out,
/// decrypting its stored secret restores the given key.
pub fn build_provider_key(
    vault: &EncryptionService,
    project_id: String,
    provider: LlmProvider,
    name: String,
    api_key: &str,
) -> (r: Result<LlmApiKey, AppError>)
    ensures
        vstd::utf8::encode_utf8(api_key@).len() < 0x1_0000_0000 ==> r is Ok,
        r matches Ok(k) ==> k.project_id == project_id
            && k.provider == provider
            && k.name == name
            && spec_decrypted(vault.key(), k.encrypted_key@) == Some(api_key@)
            && k.is_active
            && !k.is_default,
        r matches Err(e) ==> e is EncryptionError,
{
    let encrypted = match vault.encrypt(api_key) {
        Ok(c) => c,
        Err(e) => {
            return Err(e);
        },
    };
    Ok(LlmApiKey::new(project_id, provider, name, encrypted))
}

} // verus!
