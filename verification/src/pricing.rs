//! The static model-price table and cost formulas.  All monetary amounts
//! are integers in nano-USD (10^-9 USD), so every cost here is exact:
//! a per-1000-token rate of $0.01 is 10,000 nano-USD per token.

use vstd::prelude::*;
use crate::text::spec_starts_with;
use crate::text::starts_with_str;

verus! {

/// Per-token (input, output) rates in nano-USD, selected by model-name
/// prefix; unmatched models fall back to the cheapest tier.
pub open spec fn spec_model_rates(model: Seq<char>) -> (u64, u64) {
    if spec_starts_with(model, "gpt-4-turbo"@) || spec_starts_with(model, "gpt-4-1106"@) {
        (10000u64, 30000u64)
    } else if spec_starts_with(model, "gpt-4"@) {
        (30000u64, 60000u64)
    } else if spec_starts_with(model, "gpt-3.5-turbo"@) {
        (500u64, 1500u64)
    } else {
        (500u64, 1500u64)
    }
}

/// The (input, output) per-token rates for a model name.
pub fn model_rates(model: &str) -> (r: (u64, u64))
    ensures
        r == spec_model_rates(model@),
{
    if starts_with_str(model, "gpt-4-turbo") || starts_with_str(model, "gpt-4-1106") {
        (10000, 30000)
    } else if starts_with_str(model, "gpt-4") {
        (30000, 60000)
    } else if starts_with_str(model, "gpt-3.5-turbo") {
        (500, 1500)
    } else {
        (500, 1500)
    }
}

/// Chat cost in nano-USD: prompt tokens at the input rate plus completion
/// tokens at the output rate of the model's price tier.
pub open spec fn spec_chat_cost(model: Seq<char>, prompt_tokens: nat, completion_tokens: nat) -> nat {
    prompt_tokens * (spec_model_rates(model).0 as nat) + completion_tokens * (spec_model_rates(model).1 as nat)
}

/// Computes the chat completion cost for a model and token counts.
pub fn calculate_openai_cost(model: &str, prompt_tokens: u32, completion_tokens: u32) -> (r: u64)
    ensures
        r == spec_chat_cost(model@, prompt_tokens as nat, completion_tokens as nat),
{
    let rates = model_rates(model);
    proof {
        assert((prompt_tokens as u64) * rates.0 <= 0xFFFF_FFFFu64 * 60000) by (nonlinear_arith)
            requires
                prompt_tokens <= 0xFFFF_FFFFu32,
                rates.0 <= 60000,
        ;
        assert((completion_tokens as u64) * rates.1 <= 0xFFFF_FFFFu64 * 60000) by (nonlinear_arith)
            requires
                completion_tokens <= 0xFFFF_FFFFu32,
                rates.1 <= 60000,
        ;
    }
    (prompt_tokens as u64) * rates.0 + (completion_tokens as u64) * rates.1
}

/// Transcription cost in nano-USD: a fixed per-minute rate of $0.006,
/// that is 100 nano-USD per millisecond of audio.
pub open spec fn spec_transcription_cost(duration_ms: nat) -> nat {
    duration_ms * 100
}

/// Computes the transcription cost estimate from the audio duration.
pub fn transcription_cost_nanos(duration_ms: u32) -> (r: u64)
    ensures
        r == spec_transcription_cost(duration_ms as nat),
{
    (duration_ms as u64) * 100
}

} // verus!
