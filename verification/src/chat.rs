//! Canonical chat-completion request and response shapes, and the request
//! validation that runs before any upstream call.  Sampling parameters are
//! fixed-point integers in thousandths, so a temperature of 1.5 is 1500
//! milli-units and the documented range [0, 2] is [0, 2000].

use vstd::prelude::*;

verus! {

/// Author of a chat message.
#[derive(Debug, Clone, Copy, PartialEq, Eq, Structural)]
pub enum ChatRole {
    System,
    User,
    Assistant,
}

/// One role-tagged message.
#[derive(Debug, Clone)]
pub struct ChatMessage {
    pub role: ChatRole,
    pub content: String,
}

/// A chat completion request.  Defaults (applied at the boundary that
/// builds this value): temperature 1000, top_p 1000, both penalties 0.
#[derive(Debug)]
pub struct ChatCompletionRequest {
    pub model: String,
    pub messages: Vec<ChatMessage>,
    /// Sampling temperature in milli-units, range [0, 2000].
    pub temperature_milli: i32,
    pub max_tokens: Option<u32>,
    pub stream: bool,
    /// Nucleus sampling parameter in milli-units, range [0, 1000].
    pub top_p_milli: i32,
    /// Frequency penalty in milli-units, range [-2000, 2000].
    pub frequency_penalty_milli: i32,
    /// Presence penalty in milli-units, range [-2000, 2000].
    pub presence_penalty_milli: i32,
}

/// Whether a request passes validation: non-empty messages and model, and
/// every sampling parameter inside its documented range.
pub open spec fn spec_chat_request_valid(r: ChatCompletionRequest) -> bool {
    &&& r.messages@.len() > 0
    &&& r.model@.len() > 0
    &&& 0 <= r.temperature_milli <= 2000
    &&& 0 <= r.top_p_milli <= 1000
    &&& -2000 <= r.frequency_penalty_milli <= 2000
    &&& -2000 <= r.presence_penalty_milli <= 2000
}

impl ChatCompletionRequest {
    /// Validates the request, reporting the first violated rule; succeeds
    /// exactly on requests [`spec_chat_request_valid`] accepts.
    pub fn validate(&self) -> (r: Result<(), String>)
        ensures
            r.is_ok() == spec_chat_request_valid(*self),
            self.messages@.len() == 0 ==> (r matches Err(m)
                && m@ == "messages array cannot be empty"@),
            self.messages@.len() > 0 && self.model@.len() == 0 ==> (r matches Err(m)
                && m@ == "model cannot be empty"@),
            self.messages@.len() > 0 && self.model@.len() > 0
                && !(0 <= self.temperature_milli <= 2000) ==> (r matches Err(m)
                && m@ == "temperature must be between 0 and 2"@),
            self.messages@.len() > 0 && self.model@.len() > 0
                && 0 <= self.temperature_milli <= 2000
                && !(0 <= self.top_p_milli <= 1000) ==> (r matches Err(m)
                && m@ == "top_p must be between 0 and 1"@),
            self.messages@.len() > 0 && self.model@.len() > 0
                && 0 <= self.temperature_milli <= 2000
                && 0 <= self.top_p_milli <= 1000
                && !(-2000 <= self.frequency_penalty_milli <= 2000) ==> (r matches Err(m)
                && m@ == "frequency_penalty must be between -2 and 2"@),
            self.messages@.len() > 0 && self.model@.len() > 0
                && 0 <= self.temperature_milli <= 2000
                && 0 <= self.top_p_milli <= 1000
                && -2000 <= self.frequency_penalty_milli <= 2000
                && !(-2000 <= self.presence_penalty_milli <= 2000) ==> (r matches Err(m)
                && m@ == "presence_penalty must be between -2 and 2"@),
    {
        if self.messages.len() == 0 {
            return Err("messages array cannot be empty".to_owned());
        }
        if self.model.as_str().is_empty() {
            return Err("model cannot be empty".to_owned());
        }
        if self.temperature_milli < 0 || self.temperature_milli > 2000 {
            return Err("temperature must be between 0 and 2".to_owned());
        }
        if self.top_p_milli < 0 || self.top_p_milli > 1000 {
            return Err("top_p must be between 0 and 1".to_owned());
        }
        if self.frequency_penalty_milli < -2000 || self.frequency_penalty_milli > 2000 {
            return Err("frequency_penalty must be between -2 and 2".to_owned());
        }
        if self.presence_penalty_milli < -2000 || self.presence_penalty_milli > 2000 {
            return Err("presence_penalty must be between -2 and 2".to_owned());
        }
        Ok(())
    }
}

/// Why the upstream model stopped generating.
#[derive(Debug, Clone, Copy, PartialEq, Eq, Structural)]
pub enum FinishReason {
    Stop,
    Length,
    ContentFilter,
}

/// One returned completion choice.
#[derive(Debug, Clone)]
pub struct ChatChoice {
    pub index: u32,
    pub message: ChatMessage,
    pub finish_reason: Option<FinishReason>,
}

/// Token accounting reported by the upstream provider.
#[derive(Debug, Clone, PartialEq, Eq)]
pub struct ChatUsage {
    pub prompt_tokens: u32,
    pub completion_tokens: u32,
    pub total_tokens: u32,
}

/// Gateway-specific response metadata.
#[derive(Debug, Clone)]
pub struct ChatMetadata {
    /// The provider actually used.
    pub provider: String,
    /// Whether the response was served from cache.
    pub cached: bool,
    /// Cost in nano-USD.
    pub cost_nanos: u64,
    /// Wall-clock time around the upstream call, in milliseconds.
    pub response_time: u64,
}

/// A canonical chat completion response.
#[derive(Debug, Clone)]
pub struct ChatCompletionResponse {
    pub id: String,
    pub object: String,
    pub created: i64,
    pub model: String,
    pub choices: Vec<ChatChoice>,
    pub usage: ChatUsage,
    pub x_llmhub: Option<ChatMetadata>,
}

/// Incremental content of a streamed chunk.
#[derive(Debug, Clone)]
pub struct ChatDelta {
    pub role: Option<ChatRole>,
    pub content: Option<String>,
}

/// One choice inside a streamed chunk.
#[derive(Debug, Clone)]
pub struct ChatChoiceChunk {
    pub index: u32,
    pub delta: ChatDelta,
    pub finish_reason: Option<FinishReason>,
}

/// A streamed chat completion chunk.
#[derive(Debug, Clone)]
pub struct ChatCompletionChunk {
    pub id: String,
    pub object: String,
    pub created: i64,
    pub model: String,
    pub choices: Vec<ChatChoiceChunk>,
}

/// The error payload of the chat endpoint.
#[derive(Debug, Clone)]
pub struct ChatError {
    pub error_type: String,
    pub message: String,
    pub code: String,
}

/// The error envelope of the chat endpoint.
#[derive(Debug, Clone)]
pub struct ChatErrorResponse {
    pub error: ChatError,
}

} // verus!
