//! Transcription: canonical request/response shapes, the pre-flight upload
//! checks that run before any upstream call, the content digest recorded
//! for audit and dedup, and the immutable usage-history record.
//! Durations are integer milliseconds; costs are nano-USD.

use vstd::prelude::*;
use vstd::string::StrSliceExecFns;
use vstd::string::StringExecFns;
use crate::crypto;
use crate::crypto::{sha256_of, spec_hex_lower};
use crate::entities::LlmProvider;
use crate::errors::AppError;
use crate::pricing::{spec_transcription_cost, transcription_cost_nanos};
use crate::sys;
use crate::text::{push_decimal, spec_decimal, spec_starts_with, spec_trim, str_eq, trim_str};

verus! {

/// Requested transcription output format.
#[derive(Debug, Clone, Copy, PartialEq, Eq, Structural)]
pub enum ResponseFormat {
    Json,
    Text,
    Srt,
    VerboseJson,
    Vtt,
}

/// Requested timestamp granularity.
#[derive(Debug, Clone, Copy, PartialEq, Eq, Structural)]
pub enum TimestampGranularity {
    Word,
    Segment,
}

/// A canonical transcription request.
#[derive(Debug, Clone)]
pub struct TranscriptionRequest {
    pub file_data: Vec<u8>,
    pub file_name: String,
    pub model: Option<String>,
    pub language: Option<String>,
    pub prompt: Option<String>,
    pub response_format: Option<ResponseFormat>,
    /// Sampling temperature in milli-units.
    pub temperature_milli: Option<u32>,
    pub timestamp_granularities: Option<Vec<TimestampGranularity>>,
    pub llm_api_key_id: Option<String>,
}

/// One transcribed segment; times in milliseconds, scores in milli-units.
#[derive(Debug, Clone)]
pub struct TranscriptionSegment {
    pub id: i32,
    pub start_ms: u32,
    pub end_ms: u32,
    pub text: String,
    pub tokens: Option<Vec<i32>>,
    pub temperature_milli: Option<i32>,
    pub avg_logprob_milli: Option<i32>,
    pub compression_ratio_milli: Option<i32>,
    pub no_speech_prob_milli: Option<i32>,
}

/// One transcribed word with its timing in milliseconds.
#[derive(Debug, Clone)]
pub struct TranscriptionWord {
    pub word: String,
    pub start_ms: u32,
    pub end_ms: u32,
}

/// Usage reported with a transcription result.
#[derive(Debug, Clone)]
pub struct TranscriptionUsage {
    pub audio_duration_ms: u32,
    pub tokens_used: Option<i32>,
    /// Estimated cost in nano-USD.
    pub estimated_cost_nanos: Option<u64>,
}

/// A canonical transcription result.
#[derive(Debug, Clone)]
pub struct TranscriptionResponse {
    pub text: String,
    pub language: Option<String>,
    pub duration_ms: Option<u32>,
    pub segments: Option<Vec<TranscriptionSegment>>,
    pub words: Option<Vec<TranscriptionWord>>,
    pub usage: Option<TranscriptionUsage>,
}

/// The immutable, append-only record of one transcription call.
#[derive(Debug, Clone)]
pub struct TranscriptionHistory {
    pub transcription_id: String,
    pub project_id: String,
    pub provider: LlmProvider,
    pub file_hash: String,
    pub file_name: String,
    pub file_size_bytes: usize,
    pub duration_ms: Option<u32>,
    pub model: String,
    pub language: Option<String>,
    pub text: String,
    pub cost_nanos: u64,
    pub response_time_ms: u64,
    pub from_cache: bool,
    pub created_at: i64,
}

impl TranscriptionHistory {
    /// A fresh history record carrying exactly the given fields.
    pub fn new(
        project_id: String,
        provider: LlmProvider,
        file_hash: String,
        file_name: String,
        file_size_bytes: usize,
        duration_ms: Option<u32>,
        model: String,
        language: Option<String>,
        text: String,
        cost_nanos: u64,
        response_time_ms: u64,
        from_cache: bool,
    ) -> (r: Self)
        ensures
            r.project_id == project_id,
            r.provider == provider,
            r.file_hash == file_hash,
            r.file_name == file_name,
            r.file_size_bytes == file_size_bytes,
            r.duration_ms == duration_ms,
            r.model == model,
            r.language == language,
            r.text == text,
            r.cost_nanos == cost_nanos,
            r.response_time_ms == response_time_ms,
            r.from_cache == from_cache,
            spec_starts_with(r.transcription_id@, "trans_"@),
    {
        let now = sys::now_millis();
        let mut transcription_id = "trans_".to_owned();
        transcription_id.append(sys::new_uuid().as_str());
        proof {
            reveal_strlit("trans_");
            assert(transcription_id@.subrange(0, 6) =~= "trans_"@);
        }
        TranscriptionHistory {
            transcription_id,
            project_id,
            provider,
            file_hash,
            file_name,
            file_size_bytes,
            duration_ms,
            model,
            language,
            text,
            cost_nanos,
            response_time_ms,
            from_cache,
            created_at: now,
        }
    }
}

/// The content digest of a payload: the 64-character lowercase hex SHA-256
/// of the bytes, a function of the bytes alone.
pub fn calculate_file_hash(data: &[u8]) -> (r: String)
    ensures
        r@ == spec_hex_lower(sha256_of(data@)),
        r@.len() == 64,
{
    let digest = crypto::sha256(data);
    let r = crypto::hex_lower(digest.as_slice());
    proof {
        crate::crypto::lemma_hex_lower_len(digest@);
    }
    r
}

/// Identical file bytes always yield an identical content digest,
/// whatever the file name or request options around them.
pub proof fn lemma_digest_depends_on_bytes_alone(a: Seq<u8>, b: Seq<u8>)
    requires
        a == b,
    ensures
        spec_hex_lower(sha256_of(a)) == spec_hex_lower(sha256_of(b)),
{
}

/// The pre-flight check of an upload against the project's configured
/// ceiling: an empty payload and one whose size exceeds
/// `max_file_size_mb` are both rejected with a bad request, before any
/// upstream call.
pub fn check_upload(file_len: usize, max_file_size_mb: u32) -> (r: Result<(), AppError>)
    ensures
        r.is_ok() == (file_len > 0 && file_len as nat <= (max_file_size_mb as nat) * 1048576),
        file_len == 0 ==> (r matches Err(e)
            && e matches AppError::BadRequest(m)
            && m@ == "No file provided"@),
        file_len as nat > (max_file_size_mb as nat) * 1048576 ==> (r matches Err(e)
            && e matches AppError::BadRequest(m)
            && m@ == "File size "@ + spec_decimal(file_len as nat) + " bytes exceeds limit of "@
                + spec_decimal(max_file_size_mb as nat) + "MB"@),
{
    if file_len == 0 {
        return Err(AppError::BadRequest("No file provided".to_owned()));
    }
    if file_len as u64 > (max_file_size_mb as u64) * 1048576 {
        let mut m = "File size ".to_owned();
        push_decimal(&mut m, file_len as u64);
        m.append(" bytes exceeds limit of ");
        push_decimal(&mut m, max_file_size_mb as u64);
        m.append("MB");
        return Err(AppError::BadRequest(m));
    }
    Ok(())
}

/// The usage block derived from a reported audio duration: the duration
/// itself and the exact per-minute cost estimate; no duration, no usage.
pub fn transcription_usage(duration_ms: Option<u32>) -> (r: Option<TranscriptionUsage>)
    ensures
        duration_ms matches Some(d) ==> (r matches Some(u)
            && u.audio_duration_ms == d
            && u.tokens_used is None
            && (u.estimated_cost_nanos matches Some(c) && c == spec_transcription_cost(d as nat))),
        duration_ms is None ==> r is None,
{
    match duration_ms {
        Some(d) => Some(TranscriptionUsage {
            audio_duration_ms: d,
            tokens_used: None,
            estimated_cost_nanos: Some(transcription_cost_nanos(d)),
        }),
        None => None,
    }
}

/// Assembles the canonical transcription result from decoded upstream
/// parts, deriving the usage block from the reported duration.
pub fn assemble_transcription_response(
    text: String,
    language: Option<String>,
    duration_ms: Option<u32>,
    segments: Option<Vec<TranscriptionSegment>>,
    words: Option<Vec<TranscriptionWord>>,
) -> (r: TranscriptionResponse)
    ensures
        r.text == text,
        r.language == language,
        r.duration_ms == duration_ms,
        r.segments == segments,
        r.words == words,
        duration_ms matches Some(d) ==> (r.usage matches Some(u)
            && u.audio_duration_ms == d
            && u.tokens_used is None
            && (u.estimated_cost_nanos matches Some(c) && c == spec_transcription_cost(d as nat))),
        duration_ms is None ==> r.usage is None,
{
    let usage = transcription_usage(duration_ms);
    TranscriptionResponse { text, language, duration_ms, segments, words, usage }
}

/// The cost a response reports, zero when it reports none.
pub open spec fn spec_reported_cost(usage: Option<TranscriptionUsage>) -> u64 {
    match usage {
        Some(u) => match u.estimated_cost_nanos {
            Some(c) => c,
            None => 0,
        },
        None => 0,
    }
}

/// Builds the usage-history record for a completed transcription: the
/// digest is taken as given (a function of the file bytes alone), the
/// model defaults to the fixed whisper-class identifier, and a from-cache
/// record costs nothing.
pub fn build_history(
    project_id: String,
    request: &TranscriptionRequest,
    response: &TranscriptionResponse,
    file_hash: &str,
    response_time_ms: u64,
    from_cache: bool,
) -> (r: TranscriptionHistory)
    ensures
        r.project_id == project_id,
        r.provider is Openai,
        r.file_hash@ == file_hash@,
        r.file_name == request.file_name,
        r.file_size_bytes == request.file_data@.len(),
        r.duration_ms == response.duration_ms,
        request.model matches Some(m) ==> r.model == m,
        request.model is None ==> r.model@ == "whisper-1"@,
        r.language == response.language,
        r.text == response.text,
        from_cache ==> r.cost_nanos == 0,
        !from_cache ==> r.cost_nanos == spec_reported_cost(response.usage),
        r.response_time_ms == response_time_ms,
        r.from_cache == from_cache,
        spec_starts_with(r.transcription_id@, "trans_"@),
{
    let cost_nanos: u64 = if from_cache {
        0
    } else {
        match &response.usage {
            Some(u) => match u.estimated_cost_nanos {
                Some(c) => c,
                None => 0,
            },
            None => 0,
        }
    };
    let model = match &request.model {
        Some(m) => m.clone(),
        None => "whisper-1".to_owned(),
    };
    TranscriptionHistory::new(
        project_id,
        LlmProvider::Openai,
        file_hash.to_owned(),
        request.file_name.clone(),
        request.file_data.len(),
        response.duration_ms,
        model,
        response.language.clone(),
        response.text.clone(),
        cost_nanos,
        response_time_ms,
        from_cache,
    )
}

/// The granularities one comma-separated token contributes: `word` and
/// `segment` (after trimming) map to their granularity, anything else is
/// skipped.
pub open spec fn spec_gran_of_token(tok: Seq<char>) -> Seq<TimestampGranularity> {
    if spec_trim(tok) == "word"@ {
        seq![TimestampGranularity::Word]
    } else if spec_trim(tok) == "segment"@ {
        seq![TimestampGranularity::Segment]
    } else {
        Seq::empty()
    }
}

/// The granularities of the suffix of `s` from `i` on, with the current
/// token having started at `start`.
pub open spec fn spec_grans_from(s: Seq<char>, i: int, start: int) -> Seq<TimestampGranularity>
    recommends
        0 <= start <= i <= s.len(),
    decreases s.len() - i,
{
    if i >= s.len() {
        spec_gran_of_token(s.subrange(start, s.len() as int))
    } else if s[i] == ',' {
        spec_gran_of_token(s.subrange(start, i)) + spec_grans_from(s, i + 1, i + 1)
    } else {
        spec_grans_from(s, i + 1, start)
    }
}

/// What parsing a comma-separated granularity list yields.
pub open spec fn spec_parse_granularities(s: Seq<char>) -> Seq<TimestampGranularity> {
    spec_grans_from(s, 0, 0)
}

/// Appends the granularities of one token.
fn push_gran_token(out: &mut Vec<TimestampGranularity>, tok: &str)
    ensures
        final(out)@ == old(out)@ + spec_gran_of_token(tok@),
{
    let t = trim_str(tok);
    if str_eq(t.as_str(), "word") {
        out.push(TimestampGranularity::Word);
        proof {
            assert(old(out)@.push(TimestampGranularity::Word)
                =~= old(out)@ + seq![TimestampGranularity::Word]);
        }
    } else if str_eq(t.as_str(), "segment") {
        out.push(TimestampGranularity::Segment);
        proof {
            assert(old(out)@.push(TimestampGranularity::Segment)
                =~= old(out)@ + seq![TimestampGranularity::Segment]);
        }
    } else {
        proof {
            assert(old(out)@ + Seq::<TimestampGranularity>::empty() =~= old(out)@);
        }
    }
}

/// Parses a comma-separated granularity list, trimming each token and
/// skipping unknown ones.
pub fn parse_granularities(s: &str) -> (r: Vec<TimestampGranularity>)
    ensures
        r@ == spec_parse_granularities(s@),
{
    let n = s.unicode_len();
    let mut out: Vec<TimestampGranularity> = Vec::new();
    let mut start: usize = 0;
    let mut i: usize = 0;
    while i < n
        invariant
            n == s@.len(),
            start <= i <= n,
            out@ + spec_grans_from(s@, i as int, start as int) == spec_parse_granularities(s@),
        decreases n - i,
    {
        if s.get_char(i) == ',' {
            let tok = s.substring_char(start, i);
            let ghost prev = out@;
            push_gran_token(&mut out, tok);
            proof {
                assert(prev + (spec_gran_of_token(tok@) + spec_grans_from(s@, i + 1, i + 1))
                    =~= (prev + spec_gran_of_token(tok@)) + spec_grans_from(s@, i + 1, i + 1));
            }
            start = i + 1;
        }
        i = i + 1;
    }
    let tok = s.substring_char(start, n);
    let ghost prev = out@;
    push_gran_token(&mut out, tok);
    proof {
        assert(s@.subrange(start as int, n as int) == tok@);
    }
    out
}

/// The multipart transcription request as the boundary hands it over.
#[derive(Debug, Clone)]
pub struct TranscribeRequestDto {
    pub model: Option<String>,
    pub language: Option<String>,
    pub prompt: Option<String>,
    pub response_format: Option<ResponseFormat>,
    /// Sampling temperature in milli-units.
    pub temperature_milli: Option<u32>,
    pub timestamp_granularities: Option<String>,
    pub llm_api_key_id: Option<String>,
}

impl TranscribeRequestDto {
    /// Parses the comma-separated granularity field, where present.
    pub fn parse_timestamp_granularities(&self) -> (r: Option<Vec<TimestampGranularity>>)
        ensures
            self.timestamp_granularities matches Some(s)
                ==> (r matches Some(v) && v@ == spec_parse_granularities(s@)),
            self.timestamp_granularities is None ==> r is None,
    {
        match &self.timestamp_granularities {
            Some(s) => Some(parse_granularities(s.as_str())),
            None => None,
        }
    }
}

} // verus!

