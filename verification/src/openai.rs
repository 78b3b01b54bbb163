//! The OpenAI-compatible provider adapter's computational half: wire-format
//! conversions between the canonical shapes and the provider's JSON field
//! values, failure classification, and assembly of the canonical response
//! (with its exact cost) from the decoded upstream envelope.  The HTTP call
//! and the JSON codec themselves stay outside the library; everything here
//! is a function of plain values.

use vstd::prelude::*;
use vstd::string::StringExecFns;
use crate::chat::{ChatChoice, ChatCompletionResponse, ChatMessage, ChatMetadata, ChatRole, ChatUsage, FinishReason};
use crate::errors::AppError;
use crate::pricing::{calculate_openai_cost, spec_chat_cost};
use crate::text::{contains_str, spec_contains, spec_decimal, str_eq};
use crate::transcribe::{ResponseFormat, TimestampGranularity};

verus! {

/// The wire name of each chat role.
pub open spec fn spec_role_name(r: ChatRole) -> Seq<char> {
    match r {
        ChatRole::System => "system"@,
        ChatRole::User => "user"@,
        ChatRole::Assistant => "assistant"@,
    }
}

/// The role a wire name denotes; unknown names fall back to the assistant
/// role, as the reference behaviour does.
pub open spec fn spec_role_of(s: Seq<char>) -> ChatRole {
    if s == "system"@ {
        ChatRole::System
    } else if s == "user"@ {
        ChatRole::User
    } else {
        ChatRole::Assistant
    }
}

/// Converts a canonical role to its wire name.
pub fn role_to_wire(role: ChatRole) -> (r: String)
    ensures
        r@ == spec_role_name(role),
{
    match role {
        ChatRole::System => "system".to_owned(),
        ChatRole::User => "user".to_owned(),
        ChatRole::Assistant => "assistant".to_owned(),
    }
}

/// Converts a wire role name to the canonical role.
pub fn role_from_wire(s: &str) -> (r: ChatRole)
    ensures
        r == spec_role_of(s@),
{
    if str_eq(s, "system") {
        ChatRole::System
    } else if str_eq(s, "user") {
        ChatRole::User
    } else {
        ChatRole::Assistant
    }
}

/// The finish reason a wire name denotes, `None` for anything unknown.
pub open spec fn spec_finish_reason_of(s: Seq<char>) -> Option<FinishReason> {
    if s == "stop"@ {
        Some(FinishReason::Stop)
    } else if s == "length"@ {
        Some(FinishReason::Length)
    } else if s == "content_filter"@ {
        Some(FinishReason::ContentFilter)
    } else {
        None
    }
}

/// Converts a wire finish reason to the canonical one.
pub fn finish_reason_from_wire(s: &str) -> (r: Option<FinishReason>)
    ensures
        r == spec_finish_reason_of(s@),
{
    if str_eq(s, "stop") {
        Some(FinishReason::Stop)
    } else if str_eq(s, "length") {
        Some(FinishReason::Length)
    } else if str_eq(s, "content_filter") {
        Some(FinishReason::ContentFilter)
    } else {
        None
    }
}

/// The upstream failure text for a transcription call.
pub fn transcription_api_error(body: &str) -> (r: AppError)
    ensures
        r matches AppError::ExternalApiError(m) && m@ == "OpenAI API error: "@ + body@,
{
    AppError::ExternalApiError("OpenAI API error: ".to_owned().concat(body))
}

/// The upstream failure text for a chat call, carrying the HTTP status.
pub fn chat_api_error(status: u16, body: &str) -> (r: AppError)
    ensures
        r matches AppError::ExternalApiError(m)
            && m@ == "OpenAI API error ("@ + spec_decimal(status as nat) + "): "@ + body@,
{
    let mut m = "OpenAI API error (".to_owned();
    crate::text::push_decimal(&mut m, status as u64);
    m.append("): ");
    m.append(body);
    AppError::ExternalApiError(m)
}

/// The gateway-facing classification of a failed provider call:
/// HTTP status, error type, and error code.
pub open spec fn spec_classification(e: AppError) -> (u16, Seq<char>, Seq<char>) {
    match e {
        AppError::ExternalApiError(m) => {
            if spec_contains(m@, "401"@) || spec_contains(m@, "authentication"@) {
                (401u16, "authentication_error"@, "invalid_api_key"@)
            } else if spec_contains(m@, "429"@) || spec_contains(m@, "rate_limit"@) {
                (429u16, "rate_limit_error"@, "rate_limit_exceeded"@)
            } else if spec_contains(m@, "400"@) {
                (400u16, "invalid_request_error"@, "invalid_request"@)
            } else {
                (500u16, "api_error"@, "provider_error"@)
            }
        },
        _ => (500u16, "api_error"@, "provider_error"@),
    }
}

/// Classifies a failed provider call for the chat endpoint by scanning the
/// failure text for known status markers.  A brittle heuristic over
/// unstructured text, kept because the upstream body is not guaranteed to
/// be a decodable envelope; the mapping itself is exact.
pub fn classify_provider_error(e: &AppError) -> (r: (u16, String, String))
    ensures
        r.0 == spec_classification(*e).0,
        r.1@ == spec_classification(*e).1,
        r.2@ == spec_classification(*e).2,
{
    match e {
        AppError::ExternalApiError(m) => {
            if contains_str(m.as_str(), "401") || contains_str(m.as_str(), "authentication") {
                (401, "authentication_error".to_owned(), "invalid_api_key".to_owned())
            } else if contains_str(m.as_str(), "429") || contains_str(m.as_str(), "rate_limit") {
                (429, "rate_limit_error".to_owned(), "rate_limit_exceeded".to_owned())
            } else if contains_str(m.as_str(), "400") {
                (400, "invalid_request_error".to_owned(), "invalid_request".to_owned())
            } else {
                (500, "api_error".to_owned(), "provider_error".to_owned())
            }
        },
        _ => (500, "api_error".to_owned(), "provider_error".to_owned()),
    }
}

/// The wire name of each transcription output format.
pub open spec fn spec_format_name(f: ResponseFormat) -> Seq<char> {
    match f {
        ResponseFormat::Json => "json"@,
        ResponseFormat::Text => "text"@,
        ResponseFormat::Srt => "srt"@,
        ResponseFormat::VerboseJson => "verbose_json"@,
        ResponseFormat::Vtt => "vtt"@,
    }
}

/// Converts a response format to its wire name.
pub fn format_to_wire(f: ResponseFormat) -> (r: String)
    ensures
        r@ == spec_format_name(f),
{
    match f {
        ResponseFormat::Json => "json".to_owned(),
        ResponseFormat::Text => "text".to_owned(),
        ResponseFormat::Srt => "srt".to_owned(),
        ResponseFormat::VerboseJson => "verbose_json".to_owned(),
        ResponseFormat::Vtt => "vtt".to_owned(),
    }
}

/// The wire name of each timestamp granularity.
pub open spec fn spec_gran_name(g: TimestampGranularity) -> Seq<char> {
    match g {
        TimestampGranularity::Word => "word"@,
        TimestampGranularity::Segment => "segment"@,
    }
}

/// Converts a timestamp granularity to its wire name.
pub fn granularity_to_wire(g: TimestampGranularity) -> (r: String)
    ensures
        r@ == spec_gran_name(g),
{
    match g {
        TimestampGranularity::Word => "word".to_owned(),
        TimestampGranularity::Segment => "segment".to_owned(),
    }
}

/// The comma-joined wire form of a granularity list.
pub open spec fn spec_gran_join(l: Seq<TimestampGranularity>) -> Seq<char>
    decreases l.len(),
{
    if l.len() == 0 {
        Seq::empty()
    } else if l.len() == 1 {
        spec_gran_name(l[0])
    } else {
        spec_gran_join(l.drop_last()) + ","@ + spec_gran_name(l.last())
    }
}

/// Joins the granularity names with commas for the multipart form field.
pub fn granularities_to_wire(l: &Vec<TimestampGranularity>) -> (r: String)
    ensures
        r@ == spec_gran_join(l@),
{
    let mut s = String::new();
    let n = l.len();
    let mut i: usize = 0;
    while i < n
        invariant
            n == l@.len(),
            i <= n,
            s@ == spec_gran_join(l@.take(i as int)),
        decreases n - i,
    {
        if i > 0 {
            s.append(",");
        }
        let name = granularity_to_wire(l[i]);
        s.append(name.as_str());
        proof {
            assert(l@.take(i + 1).drop_last() =~= l@.take(i as int));
            assert(l@.take(i + 1).last() == l@[i as int]);
            if i == 0 {
                assert(l@.take(1).len() == 1);
            }
        }
        i = i + 1;
    }
    proof {
        assert(l@.take(n as int) =~= l@);
    }
    s
}

/// The fixed whisper-class identifier used when no model is specified.
pub fn default_transcription_model() -> (r: String)
    ensures
        r@ == "whisper-1"@,
{
    "whisper-1".to_owned()
}

/// One decoded choice of the provider's chat envelope, as plain values.
#[derive(Debug, Clone)]
pub struct WireChatChoice {
    pub index: u32,
    pub role: String,
    pub content: String,
    pub finish_reason: Option<String>,
}

/// The canonical finish reason of a decoded wire choice.
pub open spec fn spec_wire_finish_reason(w: Option<String>) -> Option<FinishReason> {
    match w {
        Some(s) => spec_finish_reason_of(s@),
        None => None,
    }
}

/// Assembles the canonical chat response from the decoded provider
/// envelope: every choice converted field for field, the usage copied
/// through, and the gateway metadata carrying the exact cost of the
/// requested model's price tier and the measured latency.
pub fn assemble_chat_response(
    id: String,
    created: i64,
    model: String,
    request_model: &str,
    choices: Vec<WireChatChoice>,
    prompt_tokens: u32,
    completion_tokens: u32,
    total_tokens: u32,
    response_time_ms: u64,
) -> (r: ChatCompletionResponse)
    ensures
        r.id == id,
        r.object@ == "chat.completion"@,
        r.created == created,
        r.model == model,
        r.choices@.len() == choices@.len(),
        forall|i: int| 0 <= i < choices@.len() ==> {
            &&& (#[trigger] r.choices@[i]).index == choices@[i].index
            &&& r.choices@[i].message.role == spec_role_of(choices@[i].role@)
            &&& r.choices@[i].message.content == choices@[i].content
            &&& r.choices@[i].finish_reason == spec_wire_finish_reason(choices@[i].finish_reason)
        },
        r.usage.prompt_tokens == prompt_tokens,
        r.usage.completion_tokens == completion_tokens,
        r.usage.total_tokens == total_tokens,
        (r.x_llmhub matches Some(meta) && meta.provider@ == "openai"@
            && !meta.cached
            && meta.cost_nanos == spec_chat_cost(request_model@, prompt_tokens as nat, completion_tokens as nat)
            && meta.response_time == response_time_ms),
{
    let cost_nanos = calculate_openai_cost(request_model, prompt_tokens, completion_tokens);
    let mut converted: Vec<ChatChoice> = Vec::new();
    let n = choices.len();
    let mut i: usize = 0;
    while i < n
        invariant
            n == choices@.len(),
            i <= n,
            converted@.len() == i,
            forall|j: int| 0 <= j < i ==> {
                &&& (#[trigger] converted@[j]).index == choices@[j].index
                &&& converted@[j].message.role == spec_role_of(choices@[j].role@)
                &&& converted@[j].message.content == choices@[j].content
                &&& converted@[j].finish_reason == spec_wire_finish_reason(choices@[j].finish_reason)
            },
        decreases n - i,
    {
        let c = &choices[i];
        let finish = match &c.finish_reason {
            Some(s) => finish_reason_from_wire(s.as_str()),
            None => None,
        };
        converted.push(ChatChoice {
            index: c.index,
            message: ChatMessage {
                role: role_from_wire(c.role.as_str()),
                content: c.content.clone(),
            },
            finish_reason: finish,
        });
        i = i + 1;
    }
    ChatCompletionResponse {
        id,
        object: "chat.completion".to_owned(),
        created,
        model,
        choices: converted,
        usage: ChatUsage { prompt_tokens, completion_tokens, total_tokens },
        x_llmhub: Some(ChatMetadata {
            provider: "openai".to_owned(),
            cached: false,
            cost_nanos,
            response_time: response_time_ms,
        }),
    }
}

} // verus!
