//! Health-check payloads; the HTTP plumbing around them lives outside.

use vstd::prelude::*;

verus! {

/// The plain health response.
#[derive(Debug, Clone)]
pub struct HealthResponse {
    pub status: String,
    pub timestamp: i64,
}

/// The detailed health response.
#[derive(Debug, Clone)]
pub struct DetailedHealthResponse {
    pub status: String,
    pub timestamp: i64,
    pub version: String,
    pub service: String,
    pub uptime_seconds: u64,
    pub environment: String,
}

/// The payload of a healthy service at time `now`.
pub fn health_payload(now: i64) -> (r: HealthResponse)
    ensures
        r.status@ == "healthy"@,
        r.timestamp == now,
{
    HealthResponse { status: "healthy".to_owned(), timestamp: now }
}

/// The detailed payload of a healthy service.
pub fn detailed_health_payload(now: i64, version: String, uptime_seconds: u64, environment: String)
    -> (r: DetailedHealthResponse)
    ensures
        r.status@ == "healthy"@,
        r.timestamp == now,
        r.version == version,
        r.service@ == "ai-gateway"@,
        r.uptime_seconds == uptime_seconds,
        r.environment == environment,
{
    DetailedHealthResponse {
        status: "healthy".to_owned(),
        timestamp: now,
        version,
        service: "ai-gateway".to_owned(),
        uptime_seconds,
        environment,
    }
}

} // verus!
