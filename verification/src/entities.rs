//! The data model: customer projects, their lifecycle status and rate-limit
//! policy, and the two credential classes (customer API keys and upstream
//! provider keys).  Timestamps are milliseconds since the epoch.

use vstd::prelude::*;
use vstd::string::StringExecFns;
use crate::sys;
use crate::text::spec_starts_with;

verus! {

/// Supported upstream LLM providers.
#[derive(Debug, Clone, Copy, PartialEq, Eq, Structural)]
pub enum LlmProvider {
    Openai,
    Anthropic,
    Google,
    Azure,
    AwsBedrock,
}

/// The lowercase name of each provider, used as its stored form.
pub open spec fn spec_provider_name(p: LlmProvider) -> Seq<char> {
    match p {
        LlmProvider::Openai => "openai"@,
        LlmProvider::Anthropic => "anthropic"@,
        LlmProvider::Google => "google"@,
        LlmProvider::Azure => "azure"@,
        LlmProvider::AwsBedrock => "aws_bedrock"@,
    }
}

/// The provider a stored name denotes, accepting both bedrock spellings.
pub open spec fn spec_provider_of(s: Seq<char>) -> Option<LlmProvider> {
    if s == "openai"@ {
        Some(LlmProvider::Openai)
    } else if s == "anthropic"@ {
        Some(LlmProvider::Anthropic)
    } else if s == "google"@ {
        Some(LlmProvider::Google)
    } else if s == "azure"@ {
        Some(LlmProvider::Azure)
    } else if s == "aws_bedrock"@ || s == "aws-bedrock"@ {
        Some(LlmProvider::AwsBedrock)
    } else {
        None
    }
}

impl LlmProvider {
    /// Lowercase string representation, as persisted and sent on the wire.
    pub fn to_lowercase(&self) -> (r: String)
        ensures
            r@ == spec_provider_name(*self),
    {
        match self {
            LlmProvider::Openai => "openai".to_owned(),
            LlmProvider::Anthropic => "anthropic".to_owned(),
            LlmProvider::Google => "google".to_owned(),
            LlmProvider::Azure => "azure".to_owned(),
            LlmProvider::AwsBedrock => "aws_bedrock".to_owned(),
        }
    }

    /// Parses a provider name; rejects anything [`spec_provider_of`] rejects.
    pub fn from_name(s: &str) -> (r: Result<Self, String>)
        ensures
            r.is_ok() == spec_provider_of(s@) is Some,
            r matches Ok(p) ==> spec_provider_of(s@) == Some(p),
            r matches Err(m) ==> m@ == "Unknown provider: "@ + s@,
    {
        if crate::text::str_eq(s, "openai") {
            Ok(LlmProvider::Openai)
        } else if crate::text::str_eq(s, "anthropic") {
            Ok(LlmProvider::Anthropic)
        } else if crate::text::str_eq(s, "google") {
            Ok(LlmProvider::Google)
        } else if crate::text::str_eq(s, "azure") {
            Ok(LlmProvider::Azure)
        } else if crate::text::str_eq(s, "aws_bedrock") || crate::text::str_eq(s, "aws-bedrock") {
            Ok(LlmProvider::AwsBedrock)
        } else {
            Err("Unknown provider: ".to_owned().concat(s))
        }
    }
}

/// Project lifecycle status; only `Active` projects may authenticate.
#[derive(Debug, Clone, Copy, PartialEq, Eq, Structural)]
pub enum ProjectStatus {
    Active,
    Inactive,
    Suspended,
    Archived,
    Deleted,
}

/// Project visibility scope.
#[derive(Debug, Clone, Copy, PartialEq, Eq, Structural)]
pub enum ProjectVisibility {
    Private,
    OrganizationWide,
    Public,
}

/// Project member role.
#[derive(Debug, Clone, Copy, PartialEq, Eq, Structural)]
pub enum ProjectRole {
    Owner,
    Admin,
    Contributor,
    Viewer,
}

/// Kind of provider API key.
#[derive(Debug, Clone, Copy, PartialEq, Eq, Structural)]
pub enum LlmApiKeyType {
    Admin,
    Standard,
    ServiceAccount,
    ShortTerm,
    LongTerm,
    ProjectScoped,
    WorkspaceScoped,
}

impl Default for LlmApiKeyType {
    /// The standard kind is the default.
    fn default() -> (r: Self)
        ensures
            r == LlmApiKeyType::Standard,
    {
        LlmApiKeyType::Standard
    }
}

/// Rate-limit policy of a project.  Policy data only: enforcement of the
/// per-minute and concurrency fields has no enforcement point here, and the
/// request path reads only `max_file_size_mb`.
#[derive(Debug, Clone, PartialEq, Eq)]
pub struct RateLimits {
    pub requests_per_minute: u32,
    pub tokens_per_minute: Option<u32>,
    pub max_file_size_mb: u32,
    pub max_concurrent_requests: u32,
}

impl Default for RateLimits {
    fn default() -> (r: Self)
        ensures
            r.requests_per_minute == 60,
            r.tokens_per_minute == Some(90000u32),
            r.max_file_size_mb == 25,
            r.max_concurrent_requests == 10,
    {
        RateLimits {
            requests_per_minute: 60,
            tokens_per_minute: Some(90000),
            max_file_size_mb: 25,
            max_concurrent_requests: 10,
        }
    }
}

/// A customer project.
#[derive(Debug, Clone)]
pub struct Project {
    pub project_id: String,
    pub name: String,
    pub organization_id: String,
    pub status: ProjectStatus,
    pub rate_limits: RateLimits,
    pub created_at: i64,
    pub updated_at: i64,
}

impl Project {
    /// A fresh project: active, with the default rate limits.
    pub fn new(project_id: String, name: String, organization_id: String) -> (r: Self)
        ensures
            r.project_id == project_id,
            r.name == name,
            r.organization_id == organization_id,
            r.status is Active,
            r.rate_limits.requests_per_minute == 60,
            r.rate_limits.tokens_per_minute == Some(90000u32),
            r.rate_limits.max_file_size_mb == 25,
            r.rate_limits.max_concurrent_requests == 10,
            r.created_at == r.updated_at,
    {
        let now = sys::now_millis();
        Project {
            project_id,
            name,
            organization_id,
            status: ProjectStatus::Active,
            rate_limits: RateLimits::default(),
            created_at: now,
            updated_at: now,
        }
    }

    /// Whether the project may use the gateway.
    pub fn is_active(&self) -> (r: bool)
        ensures
            r == (self.status is Active),
    {
        self.status == ProjectStatus::Active
    }

    /// Changes the lifecycle status, touching the update timestamp.
    pub fn set_status(&mut self, status: ProjectStatus)
        ensures
            final(self).status == status,
            final(self).project_id == old(self).project_id,
            final(self).name == old(self).name,
            final(self).organization_id == old(self).organization_id,
            final(self).rate_limits == old(self).rate_limits,
            final(self).created_at == old(self).created_at,
    {
        self.status = status;
        self.updated_at = sys::now_millis();
    }

    /// Replaces the rate-limit policy, touching the update timestamp.
    pub fn set_rate_limits(&mut self, limits: RateLimits)
        ensures
            final(self).rate_limits == limits,
            final(self).project_id == old(self).project_id,
            final(self).name == old(self).name,
            final(self).organization_id == old(self).organization_id,
            final(self).status == old(self).status,
            final(self).created_at == old(self).created_at,
    {
        self.rate_limits = limits;
        self.updated_at = sys::now_millis();
    }
}

/// A project-owned upstream provider credential, encrypted at rest.
#[derive(Debug, Clone)]
pub struct LlmApiKey {
    pub key_id: String,
    pub project_id: String,
    pub provider: LlmProvider,
    pub name: String,
    pub encrypted_key: String,
    pub is_active: bool,
    pub is_default: bool,
    pub created_at: i64,
    pub updated_at: i64,
    pub last_used_at: Option<i64>,
}

impl LlmApiKey {
    /// A fresh provider key: active, not the provider default.
    pub fn new(project_id: String, provider: LlmProvider, name: String, encrypted_key: String) -> (r: Self)
        ensures
            r.project_id == project_id,
            r.provider == provider,
            r.name == name,
            r.encrypted_key == encrypted_key,
            r.is_active,
            !r.is_default,
            r.last_used_at is None,
            r.created_at == r.updated_at,
            spec_starts_with(r.key_id@, "llmk_"@),
    {
        let now = sys::now_millis();
        let mut key_id = "llmk_".to_owned();
        key_id.append(sys::new_uuid().as_str());
        proof {
            reveal_strlit("llmk_");
            assert(key_id@.subrange(0, 5) =~= "llmk_"@);
        }
        LlmApiKey {
            key_id,
            project_id,
            provider,
            name,
            encrypted_key,
            is_active: true,
            is_default: false,
            created_at: now,
            updated_at: now,
            last_used_at: None,
        }
    }

    /// Records a use of the key.
    pub fn mark_used(&mut self)
        ensures
            final(self).last_used_at is Some,
            *final(self) == (LlmApiKey { last_used_at: final(self).last_used_at, ..*old(self) }),
    {
        self.last_used_at = Some(sys::now_millis());
    }

    /// Disables the key, touching the update timestamp.
    pub fn deactivate(&mut self)
        ensures
            !final(self).is_active,
            *final(self) == (LlmApiKey {
                is_active: false,
                updated_at: final(self).updated_at,
                ..*old(self)
            }),
    {
        self.is_active = false;
        self.updated_at = sys::now_millis();
    }

    /// Re-enables the key, touching the update timestamp.
    pub fn activate(&mut self)
        ensures
            final(self).is_active,
            *final(self) == (LlmApiKey {
                is_active: true,
                updated_at: final(self).updated_at,
                ..*old(self)
            }),
    {
        self.is_active = true;
        self.updated_at = sys::now_millis();
    }
}

/// A customer-facing API credential.  `key_hash` is the at-rest protected
/// form of the secret; `key_prefix` and `key_suffix` are display fragments
/// derived from the plaintext.
#[derive(Debug, Clone)]
pub struct ProjectApiKey {
    pub key_id: String,
    pub project_id: String,
    pub name: String,
    pub key_hash: String,
    pub key_prefix: String,
    pub key_suffix: String,
    pub is_active: bool,
    pub created_at: i64,
    pub updated_at: i64,
    pub last_used_at: Option<i64>,
    pub expires_at: Option<i64>,
}

impl ProjectApiKey {
    /// Whether the credential is past its expiry at time `now`.
    /// A credential without an expiry never expires.
    pub open spec fn spec_expired(self, now: i64) -> bool {
        match self.expires_at {
            Some(t) => now > t,
            None => false,
        }
    }

    /// A fresh customer credential: active, without expiry.
    pub fn new(project_id: String, name: String, key_hash: String, key_prefix: String, key_suffix: String) -> (r: Self)
        ensures
            r.project_id == project_id,
            r.name == name,
            r.key_hash == key_hash,
            r.key_prefix == key_prefix,
            r.key_suffix == key_suffix,
            r.is_active,
            r.last_used_at is None,
            r.expires_at is None,
            r.created_at == r.updated_at,
            spec_starts_with(r.key_id@, "pak_"@),
    {
        let now = sys::now_millis();
        let mut key_id = "pak_".to_owned();
        key_id.append(sys::new_uuid().as_str());
        proof {
            reveal_strlit("pak_");
            assert(key_id@.subrange(0, 4) =~= "pak_"@);
        }
        ProjectApiKey {
            key_id,
            project_id,
            name,
            key_hash,
            key_prefix,
            key_suffix,
            is_active: true,
            created_at: now,
            updated_at: now,
            last_used_at: None,
            expires_at: None,
        }
    }

    /// Records a use of the credential.
    pub fn mark_used(&mut self)
        ensures
            final(self).last_used_at is Some,
            *final(self) == (ProjectApiKey { last_used_at: final(self).last_used_at, ..*old(self) }),
    {
        self.last_used_at = Some(sys::now_millis());
    }

    /// Revokes the credential, touching the update timestamp.
    pub fn revoke(&mut self)
        ensures
            !final(self).is_active,
            *final(self) == (ProjectApiKey {
                is_active: false,
                updated_at: final(self).updated_at,
                ..*old(self)
            }),
    {
        self.is_active = false;
        self.updated_at = sys::now_millis();
    }
}

} // verus!
