use ai_gateway::auth::{authorize_project, find_matching_key, parse_bearer_token};
use ai_gateway::entities::{LlmProvider, Project};
use ai_gateway::errors::AppError;
use ai_gateway::openai::{format_to_wire, granularities_to_wire};
use ai_gateway::transcribe::{
    assemble_transcription_response, build_history, calculate_file_hash, check_upload,
    parse_granularities, transcription_usage, ResponseFormat, TimestampGranularity,
    TranscribeRequestDto, TranscriptionHistory, TranscriptionRequest,
};
use ai_gateway::vault::EncryptionService;

fn plain_request(file_data: Vec<u8>, file_name: &str) -> TranscriptionRequest {
    TranscriptionRequest {
        file_data,
        file_name: file_name.to_string(),
        model: None,
        language: None,
        prompt: None,
        response_format: None,
        temperature_milli: None,
        timestamp_granularities: None,
        llm_api_key_id: None,
    }
}

#[test]
fn oversized_upload_is_rejected_before_any_call() {
    // 26 MiB against a 25 MB ceiling: 400, before any upstream request.
    let r = check_upload(26 * 1024 * 1024, 25);
    match r {
        Err(e) => {
            assert_eq!(e.status_code(), 400);
            assert!(matches!(e, AppError::BadRequest(_)));
        }
        Ok(()) => panic!("accepted an oversized upload"),
    }
}

#[test]
fn upload_at_the_ceiling_is_accepted() {
    assert!(check_upload(25 * 1024 * 1024, 25).is_ok());
    assert!(check_upload(1, 25).is_ok());
}

#[test]
fn empty_upload_is_rejected() {
    assert_eq!(check_upload(0, 25), Err(AppError::BadRequest("No file provided".to_string())));
}

#[test]
fn digest_depends_on_bytes_alone() {
    let bytes = b"RIFF....fake audio payload".to_vec();
    let h1 = calculate_file_hash(&bytes);
    let h2 = calculate_file_hash(&bytes);
    assert_eq!(h1, h2);

    // Same bytes, different file names and options: identical digest.
    let resp = assemble_transcription_response("text".to_string(), None, None, None, None);
    let mut req_a = plain_request(bytes.clone(), "a.wav");
    req_a.model = Some("whisper-1".to_string());
    let req_b = plain_request(bytes.clone(), "b.mp3");
    let rec_a = build_history("p".to_string(), &req_a, &resp, &h1, 10, false);
    let rec_b = build_history("p".to_string(), &req_b, &resp, &h2, 99, false);
    assert_eq!(rec_a.file_hash, rec_b.file_hash);

    // And different bytes give a different digest.
    assert_ne!(calculate_file_hash(b"other payload"), h1);
}

#[test]
fn digest_is_lowercase_hex_sha256() {
    assert_eq!(
        calculate_file_hash(b"abc"),
        "ba7816bf8f01cfea414140de5dae2223b00361a396177a9cb410ff61f20015ad"
    );
}

#[test]
fn granularities_parse_with_trim_and_unknown_skipped() {
    assert_eq!(
        parse_granularities("word,segment"),
        vec![TimestampGranularity::Word, TimestampGranularity::Segment]
    );
    assert_eq!(
        parse_granularities(" word , bogus , segment "),
        vec![TimestampGranularity::Word, TimestampGranularity::Segment]
    );
    assert_eq!(parse_granularities(""), vec![]);
    assert_eq!(parse_granularities("nothing,here"), vec![]);
}

#[test]
fn granularities_parse_through_the_dto() {
    let dto = TranscribeRequestDto {
        model: None,
        language: None,
        prompt: None,
        response_format: None,
        temperature_milli: None,
        timestamp_granularities: Some("segment,word".to_string()),
        llm_api_key_id: None,
    };
    assert_eq!(
        dto.parse_timestamp_granularities(),
        Some(vec![TimestampGranularity::Segment, TimestampGranularity::Word])
    );
    let none_dto = TranscribeRequestDto { timestamp_granularities: None, ..dto };
    assert_eq!(none_dto.parse_timestamp_granularities(), None);
}

#[test]
fn granularities_join_for_the_wire() {
    assert_eq!(granularities_to_wire(&vec![]), "");
    assert_eq!(granularities_to_wire(&vec![TimestampGranularity::Word]), "word");
    assert_eq!(
        granularities_to_wire(&vec![TimestampGranularity::Word, TimestampGranularity::Segment]),
        "word,segment"
    );
}

#[test]
fn transcription_cost_is_per_minute_rate() {
    // One minute of audio at $0.006/min = 6,000,000 nano-USD.
    let usage = transcription_usage(Some(60_000)).unwrap();
    assert_eq!(usage.audio_duration_ms, 60_000);
    assert_eq!(usage.estimated_cost_nanos, Some(6_000_000));
    assert!(transcription_usage(None).is_none());
}

#[test]
fn cached_history_costs_nothing() {
    let req = plain_request(b"audio".to_vec(), "a.wav");
    let resp = assemble_transcription_response(
        "hi".to_string(),
        None,
        Some(60_000),
        None,
        None,
    );
    let hash = calculate_file_hash(&req.file_data);
    let cached = build_history("p".to_string(), &req, &resp, &hash, 5, true);
    assert_eq!(cached.cost_nanos, 0);
    assert!(cached.from_cache);
    let uncached = build_history("p".to_string(), &req, &resp, &hash, 5, false);
    assert_eq!(uncached.cost_nanos, 6_000_000);
}

#[test]
fn happy_path_returns_result_and_writes_one_usage_record() {
    // The full request path as the service runs it, with the repository and
    // the upstream call mocked as plain values.
    let vault = EncryptionService::new(&EncryptionService::generate_key()).unwrap();
    let secret = "pk_live_good-token";

    // Stored state: one active credential and its active owning project.
    let stored_key = ai_gateway::entities::ProjectApiKey::new(
        "proj_9".to_string(),
        "ci key".to_string(),
        vault.encrypt(secret).unwrap(),
        "pk_live_g".to_string(),
        "oken".to_string(),
    );
    let project = Project::new("proj_9".to_string(), "demo".to_string(), "org".to_string());
    let mut usage_store: Vec<TranscriptionHistory> = Vec::new();
    let mut upstream_calls = 0u32;

    // 1. Authentication.
    let header = format!("Bearer {}", secret);
    let token = parse_bearer_token(Some(&header)).unwrap();
    let candidates = vec![stored_key];
    let idx = find_matching_key(&vault, &token, &candidates, 1_700_000_000_000).unwrap();
    assert_eq!(candidates[idx].project_id, project.project_id);
    authorize_project(&project).unwrap();

    // 2. Pre-flight: a small upload under the 25 MB ceiling.
    let request = plain_request(vec![7u8; 2048], "clip.wav");
    check_upload(request.file_data.len(), project.rate_limits.max_file_size_mb).unwrap();

    // 3. Content digest, then the (mocked) provider call.
    let file_hash = calculate_file_hash(&request.file_data);
    upstream_calls += 1;
    let response = assemble_transcription_response(
        "hello world".to_string(),
        Some("en".to_string()),
        Some(90_000),
        None,
        None,
    );

    // 4. The response carries text, duration and a derived cost.
    assert_eq!(response.text, "hello world");
    assert_eq!(response.duration_ms, Some(90_000));
    let usage = response.usage.clone().unwrap();
    assert_eq!(usage.estimated_cost_nanos, Some(9_000_000));

    // 5. Exactly one usage record is written, after the provider call.
    let record = build_history(
        project.project_id.clone(),
        &request,
        &response,
        &file_hash,
        42,
        false,
    );
    usage_store.push(record);

    assert_eq!(upstream_calls, 1);
    assert_eq!(usage_store.len(), 1);
    let rec = &usage_store[0];
    assert_eq!(rec.project_id, "proj_9");
    assert_eq!(rec.provider, LlmProvider::Openai);
    assert_eq!(rec.file_hash, file_hash);
    assert_eq!(rec.file_size_bytes, 2048);
    assert_eq!(rec.model, "whisper-1");
    assert_eq!(rec.cost_nanos, 9_000_000);
    assert_eq!(rec.response_time_ms, 42);
    assert!(!rec.from_cache);
    // `trans_` plus a 36-character hyphenated identifier.
    assert!(rec.transcription_id.starts_with("trans_"));
    assert_eq!(rec.transcription_id.len(), 42);
}

#[test]
fn response_formats_have_their_wire_names() {
    assert_eq!(format_to_wire(ResponseFormat::Json), "json");
    assert_eq!(format_to_wire(ResponseFormat::Text), "text");
    assert_eq!(format_to_wire(ResponseFormat::Srt), "srt");
    assert_eq!(format_to_wire(ResponseFormat::VerboseJson), "verbose_json");
    assert_eq!(format_to_wire(ResponseFormat::Vtt), "vtt");
}
