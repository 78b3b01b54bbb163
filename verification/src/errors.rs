//! Gateway error kinds and their fixed external mapping.

use vstd::prelude::*;

verus! {

/// Application error types.  Each variant carries a human-readable message;
/// the variant alone decides the external HTTP status and error code.
#[derive(Debug, Clone, PartialEq, Eq)]
pub enum AppError {
    DatabaseError(String),
    ValidationError(String),
    NotFound(String),
    AuthenticationError(String),
    AuthorizationError(String),
    RateLimitError(String),
    ConfigError(String),
    ExternalApiError(String),
    EncryptionError(String),
    InternalError(String),
    BadRequest(String),
    ServiceUnavailable(String),
}

impl AppError {
    /// HTTP status of the error, per the gateway's fixed mapping table.
    pub fn status_code(&self) -> (status: u16)
        ensures
            status == self.spec_status_code(),
    {
        match self {
            AppError::ValidationError(_) => 400,
            AppError::BadRequest(_) => 400,
            AppError::AuthenticationError(_) => 401,
            AppError::AuthorizationError(_) => 403,
            AppError::NotFound(_) => 404,
            AppError::RateLimitError(_) => 429,
            AppError::ServiceUnavailable(_) => 503,
            AppError::ExternalApiError(_) => 502,
            AppError::DatabaseError(_) => 500,
            AppError::ConfigError(_) => 500,
            AppError::EncryptionError(_) => 500,
            AppError::InternalError(_) => 500,
        }
    }

    /// The status each variant maps to.
    pub open spec fn spec_status_code(self) -> u16 {
        match self {
            AppError::ValidationError(_) => 400,
            AppError::BadRequest(_) => 400,
            AppError::AuthenticationError(_) => 401,
            AppError::AuthorizationError(_) => 403,
            AppError::NotFound(_) => 404,
            AppError::RateLimitError(_) => 429,
            AppError::ServiceUnavailable(_) => 503,
            AppError::ExternalApiError(_) => 502,
            AppError::DatabaseError(_) => 500,
            AppError::ConfigError(_) => 500,
            AppError::EncryptionError(_) => 500,
            AppError::InternalError(_) => 500,
        }
    }

    /// Machine-readable error code reported beside the status.
    pub fn error_code(&self) -> (code: String)
        ensures
            code@ == self.spec_error_code(),
    {
        match self {
            AppError::ValidationError(_) => "VALIDATION_ERROR".to_owned(),
            AppError::BadRequest(_) => "BAD_REQUEST".to_owned(),
            AppError::AuthenticationError(_) => "AUTHENTICATION_ERROR".to_owned(),
            AppError::AuthorizationError(_) => "AUTHORIZATION_ERROR".to_owned(),
            AppError::NotFound(_) => "NOT_FOUND".to_owned(),
            AppError::RateLimitError(_) => "RATE_LIMIT_EXCEEDED".to_owned(),
            AppError::ServiceUnavailable(_) => "SERVICE_UNAVAILABLE".to_owned(),
            AppError::ExternalApiError(_) => "EXTERNAL_API_ERROR".to_owned(),
            AppError::DatabaseError(_) => "INTERNAL_ERROR".to_owned(),
            AppError::ConfigError(_) => "INTERNAL_ERROR".to_owned(),
            AppError::EncryptionError(_) => "INTERNAL_ERROR".to_owned(),
            AppError::InternalError(_) => "INTERNAL_ERROR".to_owned(),
        }
    }

    /// The error code each variant maps to.
    pub open spec fn spec_error_code(self) -> Seq<char> {
        match self {
            AppError::ValidationError(_) => "VALIDATION_ERROR"@,
            AppError::BadRequest(_) => "BAD_REQUEST"@,
            AppError::AuthenticationError(_) => "AUTHENTICATION_ERROR"@,
            AppError::AuthorizationError(_) => "AUTHORIZATION_ERROR"@,
            AppError::NotFound(_) => "NOT_FOUND"@,
            AppError::RateLimitError(_) => "RATE_LIMIT_EXCEEDED"@,
            AppError::ServiceUnavailable(_) => "SERVICE_UNAVAILABLE"@,
            AppError::ExternalApiError(_) => "EXTERNAL_API_ERROR"@,
            AppError::DatabaseError(_) => "INTERNAL_ERROR"@,
            AppError::ConfigError(_) => "INTERNAL_ERROR"@,
            AppError::EncryptionError(_) => "INTERNAL_ERROR"@,
            AppError::InternalError(_) => "INTERNAL_ERROR"@,
        }
    }

    /// The message the variant was built with.
    pub open spec fn spec_message(self) -> Seq<char> {
        match self {
            AppError::DatabaseError(m) => m@,
            AppError::ValidationError(m) => m@,
            AppError::NotFound(m) => m@,
            AppError::AuthenticationError(m) => m@,
            AppError::AuthorizationError(m) => m@,
            AppError::RateLimitError(m) => m@,
            AppError::ConfigError(m) => m@,
            AppError::ExternalApiError(m) => m@,
            AppError::EncryptionError(m) => m@,
            AppError::InternalError(m) => m@,
            AppError::BadRequest(m) => m@,
            AppError::ServiceUnavailable(m) => m@,
        }
    }

    /// Full display text: a fixed per-variant prefix followed by the message.
    pub fn message(&self) -> (text: String)
        ensures
            text@ == self.spec_prefix() + self.spec_message(),
    {
        let (prefix, inner): (String, &String) = match self {
            AppError::DatabaseError(m) => ("Database error: ".to_owned(), m),
            AppError::ValidationError(m) => ("Validation error: ".to_owned(), m),
            AppError::NotFound(m) => ("Not found: ".to_owned(), m),
            AppError::AuthenticationError(m) => ("Authentication error: ".to_owned(), m),
            AppError::AuthorizationError(m) => ("Authorization error: ".to_owned(), m),
            AppError::RateLimitError(m) => ("Rate limit exceeded: ".to_owned(), m),
            AppError::ConfigError(m) => ("Configuration error: ".to_owned(), m),
            AppError::ExternalApiError(m) => ("External API error: ".to_owned(), m),
            AppError::EncryptionError(m) => ("Encryption error: ".to_owned(), m),
            AppError::InternalError(m) => ("Internal error: ".to_owned(), m),
            AppError::BadRequest(m) => ("Bad request: ".to_owned(), m),
            AppError::ServiceUnavailable(m) => ("Service unavailable: ".to_owned(), m),
        };
        prefix.concat(inner.as_str())
    }

    /// The display prefix of each variant.
    pub open spec fn spec_prefix(self) -> Seq<char> {
        match self {
            AppError::DatabaseError(_) => "Database error: "@,
            AppError::ValidationError(_) => "Validation error: "@,
            AppError::NotFound(_) => "Not found: "@,
            AppError::AuthenticationError(_) => "Authentication error: "@,
            AppError::AuthorizationError(_) => "Authorization error: "@,
            AppError::RateLimitError(_) => "Rate limit exceeded: "@,
            AppError::ConfigError(_) => "Configuration error: "@,
            AppError::ExternalApiError(_) => "External API error: "@,
            AppError::EncryptionError(_) => "Encryption error: "@,
            AppError::InternalError(_) => "Internal error: "@,
            AppError::BadRequest(_) => "Bad request: "@,
            AppError::ServiceUnavailable(_) => "Service unavailable: "@,
        }
    }
}

} // verus!
