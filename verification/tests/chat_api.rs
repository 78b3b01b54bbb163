use ai_gateway::chat::{ChatCompletionRequest, ChatMessage, ChatRole, FinishReason};
use ai_gateway::errors::AppError;
use ai_gateway::openai::{
    assemble_chat_response, chat_api_error, classify_provider_error, finish_reason_from_wire,
    role_from_wire, role_to_wire, transcription_api_error, WireChatChoice,
};
use ai_gateway::pricing::calculate_openai_cost;

fn request() -> ChatCompletionRequest {
    ChatCompletionRequest {
        model: "gpt-4".to_string(),
        messages: vec![ChatMessage { role: ChatRole::User, content: "hi".to_string() }],
        temperature_milli: 1000,
        max_tokens: None,
        stream: false,
        top_p_milli: 1000,
        frequency_penalty_milli: 0,
        presence_penalty_milli: 0,
    }
}

#[test]
fn valid_request_passes_validation() {
    assert_eq!(request().validate(), Ok(()));
}

#[test]
fn out_of_range_temperature_is_rejected_before_any_call() {
    // temperature = 3.0 (3000 milli-units) must be rejected up front.
    let mut r = request();
    r.temperature_milli = 3000;
    assert_eq!(r.validate(), Err("temperature must be between 0 and 2".to_string()));
}

#[test]
fn each_validation_rule_reports_its_own_message() {
    let mut r = request();
    r.messages = vec![];
    assert_eq!(r.validate(), Err("messages array cannot be empty".to_string()));

    let mut r = request();
    r.model = String::new();
    assert_eq!(r.validate(), Err("model cannot be empty".to_string()));

    let mut r = request();
    r.temperature_milli = -1;
    assert_eq!(r.validate(), Err("temperature must be between 0 and 2".to_string()));

    let mut r = request();
    r.top_p_milli = 1001;
    assert_eq!(r.validate(), Err("top_p must be between 0 and 1".to_string()));

    let mut r = request();
    r.frequency_penalty_milli = -2001;
    assert_eq!(r.validate(), Err("frequency_penalty must be between -2 and 2".to_string()));

    let mut r = request();
    r.presence_penalty_milli = 2001;
    assert_eq!(r.validate(), Err("presence_penalty must be between -2 and 2".to_string()));
}

#[test]
fn boundary_values_are_accepted() {
    let mut r = request();
    r.temperature_milli = 2000;
    r.top_p_milli = 0;
    r.frequency_penalty_milli = -2000;
    r.presence_penalty_milli = 2000;
    assert_eq!(r.validate(), Ok(()));
}

#[test]
fn chat_cost_is_exact_per_tier() {
    // gpt-4: $0.03 / $0.06 per 1000 tokens.
    // 1000 prompt + 500 completion = 0.03 + 0.03 = $0.06 = 60,000,000 nano.
    assert_eq!(calculate_openai_cost("gpt-4", 1000, 500), 60_000_000);
    // gpt-4-turbo: $0.01 / $0.03 per 1000 tokens.
    assert_eq!(calculate_openai_cost("gpt-4-turbo-preview", 2000, 1000), 50_000_000);
    assert_eq!(calculate_openai_cost("gpt-4-1106-preview", 1000, 0), 10_000_000);
    // gpt-3.5-turbo: $0.0005 / $0.0015 per 1000 tokens.
    assert_eq!(calculate_openai_cost("gpt-3.5-turbo", 4000, 2000), 5_000_000);
    assert_eq!(calculate_openai_cost("gpt-3.5-turbo", 0, 0), 0);
}

#[test]
fn unknown_models_fall_back_to_cheapest_tier() {
    let fallback = calculate_openai_cost("mistral-large", 1000, 1000);
    let cheapest = calculate_openai_cost("gpt-3.5-turbo", 1000, 1000);
    assert_eq!(fallback, cheapest);
    assert_eq!(fallback, 2_000_000);
}

#[test]
fn provider_failures_classify_by_status_marker() {
    let e = chat_api_error(401, "{\"error\":\"bad key\"}");
    assert_eq!(
        classify_provider_error(&e),
        (401, "authentication_error".to_string(), "invalid_api_key".to_string())
    );

    let e = chat_api_error(429, "slow down");
    assert_eq!(
        classify_provider_error(&e),
        (429, "rate_limit_error".to_string(), "rate_limit_exceeded".to_string())
    );

    let e = chat_api_error(400, "bad body");
    assert_eq!(
        classify_provider_error(&e),
        (400, "invalid_request_error".to_string(), "invalid_request".to_string())
    );

    let e = transcription_api_error("mysterious upstream failure");
    assert_eq!(
        classify_provider_error(&e),
        (500, "api_error".to_string(), "provider_error".to_string())
    );

    let e = AppError::InternalError("401 mentioned but not an upstream error".to_string());
    assert_eq!(classify_provider_error(&e).0, 500);
}

#[test]
fn classification_also_matches_textual_markers() {
    let e = AppError::ExternalApiError("upstream said: authentication failed".to_string());
    assert_eq!(classify_provider_error(&e).2, "invalid_api_key");
    let e = AppError::ExternalApiError("upstream said: rate_limit hit".to_string());
    assert_eq!(classify_provider_error(&e).2, "rate_limit_exceeded");
}

#[test]
fn chat_error_text_carries_status_and_body() {
    let e = chat_api_error(502, "boom");
    assert_eq!(e, AppError::ExternalApiError("OpenAI API error (502): boom".to_string()));
    assert_eq!(e.status_code(), 502);
}

#[test]
fn roles_and_finish_reasons_convert_both_ways() {
    assert_eq!(role_to_wire(ChatRole::System), "system");
    assert_eq!(role_to_wire(ChatRole::User), "user");
    assert_eq!(role_to_wire(ChatRole::Assistant), "assistant");
    assert_eq!(role_from_wire("system"), ChatRole::System);
    assert_eq!(role_from_wire("user"), ChatRole::User);
    assert_eq!(role_from_wire("tool"), ChatRole::Assistant);
    assert_eq!(finish_reason_from_wire("stop"), Some(FinishReason::Stop));
    assert_eq!(finish_reason_from_wire("length"), Some(FinishReason::Length));
    assert_eq!(finish_reason_from_wire("content_filter"), Some(FinishReason::ContentFilter));
    assert_eq!(finish_reason_from_wire("eos"), None);
}

#[test]
fn assembled_response_carries_cost_and_latency() {
    let choices = vec![WireChatChoice {
        index: 0,
        role: "assistant".to_string(),
        content: "hello there".to_string(),
        finish_reason: Some("stop".to_string()),
    }];
    let r = assemble_chat_response(
        "chatcmpl-1".to_string(),
        1_700_000_000,
        "gpt-4-0613".to_string(),
        "gpt-4",
        choices,
        1000,
        500,
        1500,
        321,
    );
    assert_eq!(r.id, "chatcmpl-1");
    assert_eq!(r.object, "chat.completion");
    assert_eq!(r.model, "gpt-4-0613");
    assert_eq!(r.choices.len(), 1);
    assert_eq!(r.choices[0].message.role, ChatRole::Assistant);
    assert_eq!(r.choices[0].message.content, "hello there");
    assert_eq!(r.choices[0].finish_reason, Some(FinishReason::Stop));
    assert_eq!(r.usage.total_tokens, 1500);
    let meta = r.x_llmhub.unwrap();
    assert_eq!(meta.provider, "openai");
    assert!(!meta.cached);
    assert_eq!(meta.cost_nanos, 60_000_000);
    assert_eq!(meta.response_time, 321);
}
