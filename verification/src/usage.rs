//! Usage logging: the immutable per-call record and its cost accounting.
//! Costs are nano-USD; durations and latencies are integer milliseconds.

use vstd::prelude::*;
use vstd::string::StringExecFns;
use crate::entities::LlmProvider;
use crate::sys;
use crate::text::spec_starts_with;

verus! {

/// The gateway endpoint a call used.
#[derive(Debug, Clone, Copy, PartialEq, Eq, Structural)]
pub enum ApiEndpoint {
    ChatCompletions,
    AudioTranscribe,
    AudioTranslate,
    Realtime,
    Embeddings,
}

/// What was asked of the gateway.
#[derive(Debug, Clone)]
pub struct RequestMetadata {
    pub request_id: String,
    pub method: String,
    pub path: String,
    pub ip_address: Option<String>,
    pub user_agent: Option<String>,
    pub prompt_tokens: Option<i32>,
    pub audio_duration_ms: Option<u32>,
    pub file_size_bytes: Option<i64>,
    /// Sampling temperature in milli-units.
    pub temperature_milli: Option<i32>,
    pub max_tokens: Option<i32>,
    pub stream: bool,
}

/// What came back.
#[derive(Debug, Clone)]
pub struct ResponseMetadata {
    pub status_code: u16,
    pub latency_ms: u64,
    pub provider_latency_ms: Option<u64>,
    pub completion_tokens: Option<i32>,
    pub total_tokens: Option<i32>,
    pub finish_reason: Option<String>,
}

/// Kind of cache a hit came from.
#[derive(Debug, Clone, Copy, PartialEq, Eq, Structural)]
pub enum CacheType {
    Exact,
    Semantic,
}

/// Cache participation of a call.
#[derive(Debug, Clone)]
pub struct CacheInfo {
    pub cache_type: CacheType,
    pub cache_hit: bool,
    /// Similarity score in milli-units.
    pub similarity_score_milli: Option<i32>,
}

/// Cost breakdown of a call, in nano-USD.
#[derive(Debug, Clone)]
pub struct CostData {
    pub prompt_cost_nanos: Option<u64>,
    pub completion_cost_nanos: Option<u64>,
    pub audio_cost_nanos: Option<u64>,
    pub total_cost_nanos: u64,
    pub cached_savings_nanos: Option<u64>,
}

/// One immutable usage record, created after a provider call completes and
/// never read back by the request path.
#[derive(Debug, Clone)]
pub struct UsageLog {
    pub usage_id: String,
    pub project_id: String,
    pub api_endpoint: ApiEndpoint,
    pub provider: LlmProvider,
    pub model: String,
    pub request_metadata: RequestMetadata,
    pub response_metadata: ResponseMetadata,
    pub cost_data: CostData,
    pub cache_info: Option<CacheInfo>,
    pub error: Option<String>,
    pub created_at: i64,
}

impl UsageLog {
    /// Whether the call was served from a cache.
    pub open spec fn spec_cached(self) -> bool {
        match self.cache_info {
            Some(info) => info.cache_hit,
            None => false,
        }
    }

    /// A fresh usage record carrying exactly the given fields.
    pub fn new(
        project_id: String,
        api_endpoint: ApiEndpoint,
        provider: LlmProvider,
        model: String,
        request_metadata: RequestMetadata,
        response_metadata: ResponseMetadata,
        cost_data: CostData,
        cache_info: Option<CacheInfo>,
        error: Option<String>,
    ) -> (r: Self)
        ensures
            r.project_id == project_id,
            r.api_endpoint == api_endpoint,
            r.provider == provider,
            r.model == model,
            r.request_metadata == request_metadata,
            r.response_metadata == response_metadata,
            r.cost_data == cost_data,
            r.cache_info == cache_info,
            r.error == error,
            spec_starts_with(r.usage_id@, "usage_"@),
    {
        let now = sys::now_millis();
        let mut usage_id = "usage_".to_owned();
        usage_id.append(sys::new_uuid().as_str());
        proof {
            reveal_strlit("usage_");
            assert(usage_id@.subrange(0, 6) =~= "usage_"@);
        }
        UsageLog {
            usage_id,
            project_id,
            api_endpoint,
            provider,
            model,
            request_metadata,
            response_metadata,
            cost_data,
            cache_info,
            error,
            created_at: now,
        }
    }

    /// Whether the call succeeded: no recorded error and a 2xx status.
    pub fn is_success(&self) -> (r: bool)
        ensures
            r == (self.error is None && 200 <= self.response_metadata.status_code < 300),
    {
        self.error.is_none() && 200 <= self.response_metadata.status_code
            && self.response_metadata.status_code < 300
    }

    /// Whether the call was served from a cache.
    pub fn is_cached(&self) -> (r: bool)
        ensures
            r == self.spec_cached(),
    {
        match &self.cache_info {
            Some(info) => info.cache_hit,
            None => false,
        }
    }

    /// What the call actually cost: nothing when cached.
    pub fn get_actual_cost(&self) -> (r: u64)
        ensures
            self.spec_cached() ==> r == 0,
            !self.spec_cached() ==> r == self.cost_data.total_cost_nanos,
    {
        if self.is_cached() {
            0
        } else {
            self.cost_data.total_cost_nanos
        }
    }

    /// What the call would have cost uncached.
    pub fn get_full_cost(&self) -> (r: u64)
        ensures
            r == self.cost_data.total_cost_nanos,
    {
        self.cost_data.total_cost_nanos
    }
}

/// Whether a record's creation time falls inside an optional window;
/// an absent bound never excludes.
pub open spec fn spec_in_window(log: UsageLog, from: Option<i64>, to: Option<i64>) -> bool {
    &&& match from {
        Some(f) => log.created_at >= f,
        None => true,
    }
    &&& match to {
        Some(t) => log.created_at <= t,
        None => true,
    }
}

/// The total recorded cost, in nano-USD, of the records inside the window.
pub open spec fn spec_total_cost(logs: Seq<UsageLog>, from: Option<i64>, to: Option<i64>) -> int
    decreases logs.len(),
{
    if logs.len() == 0 {
        0
    } else {
        spec_total_cost(logs.drop_last(), from, to) + if spec_in_window(logs.last(), from, to) {
            logs.last().cost_data.total_cost_nanos as int
        } else {
            0
        }
    }
}

proof fn lemma_total_cost_bound(logs: Seq<UsageLog>, from: Option<i64>, to: Option<i64>)
    ensures
        0 <= spec_total_cost(logs, from, to) <= logs.len() * (u64::MAX as int),
    decreases logs.len(),
{
    if logs.len() > 0 {
        lemma_total_cost_bound(logs.drop_last(), from, to);
    }
}

fn in_window(log: &UsageLog, from: Option<i64>, to: Option<i64>) -> (r: bool)
    ensures
        r == spec_in_window(*log, from, to),
{
    let after_start = match from {
        Some(f) => log.created_at >= f,
        None => true,
    };
    let before_end = match to {
        Some(t) => log.created_at <= t,
        None => true,
    };
    after_start && before_end
}

/// Sums the recorded cost of the usage records whose creation time falls
/// inside the optional window, in nano-USD.
pub fn calculate_total_cost(logs: &Vec<UsageLog>, from: Option<i64>, to: Option<i64>) -> (r: u128)
    ensures
        r == spec_total_cost(logs@, from, to),
{
    let n = logs.len();
    let mut total: u128 = 0;
    let mut i: usize = 0;
    while i < n
        invariant
            n == logs@.len(),
            i <= n,
            total == spec_total_cost(logs@.take(i as int), from, to),
        decreases n - i,
    {
        proof {
            assert(logs@.take(i + 1).drop_last() =~= logs@.take(i as int));
            assert(logs@.take(i + 1).last() == logs@[i as int]);
            lemma_total_cost_bound(logs@.take(i as int), from, to);
            assert((i as int) * (u64::MAX as int) + (u64::MAX as int) <= u128::MAX) by (nonlinear_arith)
                requires
                    0 <= i < 0x1_0000_0000_0000_0000,
            ;
        }
        if in_window(&logs[i], from, to) {
            total = total + logs[i].cost_data.total_cost_nanos as u128;
        }
        i = i + 1;
    }
    proof {
        assert(logs@.take(n as int) =~= logs@);
    }
    total
}

} // verus!
