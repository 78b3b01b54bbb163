use ai_gateway::entities::{
    LlmApiKey, LlmApiKeyType, LlmProvider, Project, ProjectStatus, RateLimits,
};
use ai_gateway::errors::AppError;
use ai_gateway::health::{detailed_health_payload, health_payload};
use ai_gateway::provider_keys::{build_provider_key, decrypt_active_key, require_default_key};
use ai_gateway::usage::{
    ApiEndpoint, CacheInfo, CacheType, CostData, RequestMetadata, ResponseMetadata, UsageLog,
};
use ai_gateway::vault::EncryptionService;

fn vault() -> EncryptionService {
    EncryptionService::new(&EncryptionService::generate_key()).unwrap()
}

#[test]
fn provider_names_round_trip() {
    let all = [
        LlmProvider::Openai,
        LlmProvider::Anthropic,
        LlmProvider::Google,
        LlmProvider::Azure,
        LlmProvider::AwsBedrock,
    ];
    for p in all {
        assert_eq!(LlmProvider::from_name(&p.to_lowercase()), Ok(p));
    }
    assert_eq!(LlmProvider::to_lowercase(&LlmProvider::AwsBedrock), "aws_bedrock");
    assert_eq!(LlmProvider::from_name("aws-bedrock"), Ok(LlmProvider::AwsBedrock));
    assert_eq!(
        LlmProvider::from_name("mistral"),
        Err("Unknown provider: mistral".to_string())
    );
}

#[test]
fn new_projects_are_active_with_default_limits() {
    let p = Project::new("proj_1".into(), "demo".into(), "org_1".into());
    assert!(p.is_active());
    assert_eq!(p.created_at, p.updated_at);
    assert_eq!(p.rate_limits, RateLimits::default());
    assert_eq!(p.rate_limits.max_file_size_mb, 25);
    assert_eq!(p.rate_limits.requests_per_minute, 60);
    assert_eq!(p.rate_limits.tokens_per_minute, Some(90_000));
    assert_eq!(p.rate_limits.max_concurrent_requests, 10);
}

#[test]
fn status_changes_flip_activity() {
    let mut p = Project::new("p".into(), "n".into(), "o".into());
    p.set_status(ProjectStatus::Archived);
    assert!(!p.is_active());
    p.set_status(ProjectStatus::Active);
    assert!(p.is_active());
}

#[test]
fn new_customer_credentials_are_active_and_unexpired() {
    let k = ai_gateway::entities::ProjectApiKey::new(
        "proj".into(),
        "ci".into(),
        "blob".into(),
        "pk_live_a".into(),
        "f3x9".into(),
    );
    assert!(k.is_active);
    assert!(k.key_id.starts_with("pak_"));
    assert_eq!(k.created_at, k.updated_at);
    assert_eq!(k.last_used_at, None);
    assert_eq!(k.expires_at, None);
}

#[test]
fn default_key_type_is_standard() {
    assert_eq!(LlmApiKeyType::default(), LlmApiKeyType::Standard);
}

#[test]
fn provider_key_lifecycle() {
    let mut k = LlmApiKey::new(
        "proj".into(),
        LlmProvider::Openai,
        "ci".into(),
        "blob".into(),
    );
    assert!(k.is_active);
    assert!(!k.is_default);
    assert!(k.key_id.starts_with("llmk_"));
    assert_eq!(k.created_at, k.updated_at);
    assert_eq!(k.last_used_at, None);
    k.mark_used();
    assert!(k.last_used_at.is_some());
    k.deactivate();
    assert!(!k.is_active);
    k.activate();
    assert!(k.is_active);
}

#[test]
fn built_provider_key_decrypts_to_its_secret() {
    let v = vault();
    let k = build_provider_key(&v, "proj".into(), LlmProvider::Openai, "ci".into(), "sk-abc123")
        .unwrap();
    assert_eq!(k.project_id, "proj");
    assert!(k.is_active);
    assert!(!k.is_default);
    assert_eq!(decrypt_active_key(&v, &k), Ok("sk-abc123".to_string()));
}

#[test]
fn inactive_provider_key_is_refused_even_when_decryptable() {
    let v = vault();
    let mut k = build_provider_key(&v, "p".into(), LlmProvider::Openai, "n".into(), "sk-1")
        .unwrap();
    k.deactivate();
    assert_eq!(
        decrypt_active_key(&v, &k),
        Err(AppError::AuthorizationError("LLM API key is inactive".to_string()))
    );
}

#[test]
fn missing_default_key_is_a_config_error() {
    let r = require_default_key(None, LlmProvider::Openai);
    match r {
        Err(e) => {
            assert_eq!(e.status_code(), 500);
            assert_eq!(
                e,
                AppError::ConfigError("No LLM API key configured for provider: openai".to_string())
            );
        }
        Ok(k) => panic!("invented a default key {:?}", k),
    }
    let v = vault();
    let k = build_provider_key(&v, "p".into(), LlmProvider::Google, "n".into(), "sk").unwrap();
    let resolved = require_default_key(Some(k.clone()), LlmProvider::Google).unwrap();
    assert_eq!(resolved.key_id, k.key_id);
}

fn usage_log(error: Option<String>, status: u16, cache: Option<CacheInfo>) -> UsageLog {
    UsageLog::new(
        "proj".into(),
        ApiEndpoint::ChatCompletions,
        LlmProvider::Openai,
        "gpt-4".into(),
        RequestMetadata {
            request_id: "req_1".into(),
            method: "POST".into(),
            path: "/v1/chat/completions".into(),
            ip_address: None,
            user_agent: None,
            prompt_tokens: Some(10),
            audio_duration_ms: None,
            file_size_bytes: None,
            temperature_milli: Some(1000),
            max_tokens: None,
            stream: false,
        },
        ResponseMetadata {
            status_code: status,
            latency_ms: 12,
            provider_latency_ms: None,
            completion_tokens: Some(5),
            total_tokens: Some(15),
            finish_reason: Some("stop".into()),
        },
        CostData {
            prompt_cost_nanos: Some(300_000),
            completion_cost_nanos: Some(300_000),
            audio_cost_nanos: None,
            total_cost_nanos: 600_000,
            cached_savings_nanos: None,
        },
        cache,
        error,
    )
}

#[test]
fn usage_log_success_and_cost_accounting() {
    let ok = usage_log(None, 200, None);
    assert!(ok.usage_id.starts_with("usage_"));
    assert!(ok.is_success());
    assert!(!ok.is_cached());
    assert_eq!(ok.get_actual_cost(), 600_000);
    assert_eq!(ok.get_full_cost(), 600_000);

    let failed = usage_log(Some("boom".into()), 200, None);
    assert!(!failed.is_success());

    let bad_status = usage_log(None, 502, None);
    assert!(!bad_status.is_success());

    let cached = usage_log(
        None,
        200,
        Some(CacheInfo { cache_type: CacheType::Exact, cache_hit: true, similarity_score_milli: None }),
    );
    assert!(cached.is_cached());
    assert_eq!(cached.get_actual_cost(), 0);
    assert_eq!(cached.get_full_cost(), 600_000);
}

#[test]
fn total_cost_sums_only_the_window() {
    let mut a = usage_log(None, 200, None);
    a.created_at = 1_000;
    let mut b = usage_log(None, 200, None);
    b.created_at = 2_000;
    let mut c = usage_log(None, 200, None);
    c.created_at = 3_000;
    let logs = vec![a, b, c];

    // Each record carries 600,000 nano-USD of total cost.
    assert_eq!(ai_gateway::usage::calculate_total_cost(&logs, None, None), 1_800_000);
    assert_eq!(ai_gateway::usage::calculate_total_cost(&logs, Some(1_500), None), 1_200_000);
    assert_eq!(ai_gateway::usage::calculate_total_cost(&logs, None, Some(2_000)), 1_200_000);
    assert_eq!(
        ai_gateway::usage::calculate_total_cost(&logs, Some(2_000), Some(2_000)),
        600_000
    );
    assert_eq!(ai_gateway::usage::calculate_total_cost(&logs, Some(9_000), None), 0);
    assert_eq!(ai_gateway::usage::calculate_total_cost(&vec![], None, None), 0);
}

#[test]
fn health_payloads_report_healthy() {
    let h = health_payload(123);
    assert_eq!(h.status, "healthy");
    assert_eq!(h.timestamp, 123);
    let d = detailed_health_payload(5, "0.1.0".into(), 77, "development".into());
    assert_eq!(d.status, "healthy");
    assert_eq!(d.service, "ai-gateway");
    assert_eq!(d.uptime_seconds, 77);
    assert_eq!(d.environment, "development");
}
