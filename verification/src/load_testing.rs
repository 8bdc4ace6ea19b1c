//! Load-test settings and the order statistics of measured response times.

use vstd::prelude::*;
use std::time::Duration;
use crate::env::{env_bool, env_flag, env_number, env_number_opt, env_u64, env_u64_opt, env_usize, env_view};
use crate::time::{duration_from_secs, nanos_of};
use crate::text::{decimal, push_decimal, push_text, string_from_chars, string_views};
use crate::analytics::{bump, bumped, counts_below, unique_names, Counts};

verus! {

broadcast use vstd::seq_lib::group_to_multiset_ensures;

/// How a load test runs.
#[derive(Debug, Clone)]
pub struct LoadTestConfig {
    pub concurrency: usize,
    pub duration: Duration,
    pub rate_limit: Option<u64>,
    pub validate_optimizations: bool,
    pub detailed_metrics: bool,
}

/// The load-test settings read from `env`.
pub open spec fn load_test_config_from(env: Seq<(Seq<char>, Seq<char>)>, c: LoadTestConfig) -> bool {
    &&& c.concurrency == env_number(env, "LOAD_TEST_CONCURRENCY"@, usize::MAX as nat, 10)
    &&& nanos_of(c.duration) == env_number(env, "LOAD_TEST_DURATION"@, u64::MAX as nat, 60) * 1_000_000_000
    &&& c.rate_limit == match env_number_opt(env, "LOAD_TEST_RATE_LIMIT"@, u64::MAX as nat) {
        Some(n) => Some(n as u64),
        None => None,
    }
    &&& c.validate_optimizations == env_flag(env, "LOAD_TEST_VALIDATE_OPTIMIZATIONS"@, true)
    &&& c.detailed_metrics == env_flag(env, "LOAD_TEST_DETAILED_METRICS"@, false)
}

impl LoadTestConfig {
    /// The settings from the given environment variables.
    pub fn from_env(env: &Vec<(String, String)>) -> (c: Self)
        ensures
            load_test_config_from(env_view(env@), c),
    {
        LoadTestConfig {
            concurrency: env_usize(env, "LOAD_TEST_CONCURRENCY", 10),
            duration: duration_from_secs(env_u64(env, "LOAD_TEST_DURATION", u64::MAX, 60)),
            rate_limit: env_u64_opt(env, "LOAD_TEST_RATE_LIMIT", u64::MAX),
            validate_optimizations: env_bool(env, "LOAD_TEST_VALIDATE_OPTIMIZATIONS", true),
            detailed_metrics: env_bool(env, "LOAD_TEST_DETAILED_METRICS", false),
        }
    }
}

impl Default for LoadTestConfig {
    /// The settings with no variable set.
    fn default() -> (c: Self)
        ensures
            load_test_config_from(Seq::empty(), c),
    {
        let env: Vec<(String, String)> = Vec::new();
        assert(env_view(env@) =~= Seq::empty());
        LoadTestConfig::from_env(&env)
    }
}

/// Statistics of measured response times.
#[derive(Debug, Clone)]
pub struct ResponseTimeStats {
    pub min: Duration,
    pub max: Duration,
    pub mean: Duration,
    pub median: Duration,
    pub p95: Duration,
    pub p99: Duration,
    pub std_dev: Duration,
}

/// `s` is in ascending order.
pub open spec fn ascending(s: Seq<u64>) -> bool {
    forall|i: int, j: int| 0 <= i <= j < s.len() ==> s[i] <= s[j]
}

/// The times of `times` in ascending order.
pub fn sorted_times(times: &Vec<u64>) -> (r: Vec<u64>)
    ensures
        ascending(r@),
        r@.to_multiset() == times@.to_multiset(),
{
    let mut r: Vec<u64> = Vec::new();
    let mut i: usize = 0;
    while i < times.len()
        invariant
            i <= times.len(),
            ascending(r@),
            r@.to_multiset() == times@.take(i as int).to_multiset(),
        decreases times.len() - i,
    {
        let x = times[i];
        let mut pos: usize = 0;
        while pos < r.len() && r[pos] <= x
            invariant
                pos <= r.len(),
                forall|k: int| 0 <= k < pos ==> r@[k] <= x,
            decreases r.len() - pos,
        {
            pos = pos + 1;
        }
        let ghost before = r@;
        r.insert(pos, x);
        proof {
            assert(r@ == before.insert(pos as int, x));
            vstd::seq_lib::to_multiset_insert(before, pos as int, x);
            assert(times@.take(i + 1) =~= times@.take(i as int).push(x));
            vstd::seq_lib::to_multiset_build(times@.take(i as int), x);
            assert forall|a: int, b: int| 0 <= a <= b < r@.len() implies r@[a] <= r@[b] by {
                if pos < before.len() {
                    assert(before[pos as int] > x);
                }
                if a < pos && b > pos {
                    assert(before[a] <= before[b - 1]);
                }
            }
        }
        i = i + 1;
    }
    assert(times@.take(times.len() as int) =~= times@);
    r
}

/// The position of the `pct` percentile among `len` sorted values: the
/// whole part of `len * pct / 100`, kept below `len`.
pub open spec fn percentile_index(len: nat, pct: nat) -> int {
    let k = (len * pct / 100) as int;
    if k < len { k } else { len - 1 }
}

/// The order statistics of sorted times: least, greatest, median (the value
/// at half the count), 95th and 99th percentiles, in nanoseconds.
pub open spec fn order_statistics_of(sorted: Seq<u64>) -> (u64, u64, u64, u64, u64) {
    (
        sorted[0],
        sorted[sorted.len() - 1],
        sorted[(sorted.len() / 2) as int],
        sorted[percentile_index(sorted.len(), 95)],
        sorted[percentile_index(sorted.len(), 99)],
    )
}

/// The least, greatest, median, 95th and 99th percentile of `times`
/// (nanoseconds), or all zero when there are none.
pub fn order_statistics(times: &Vec<u64>) -> (r: (u64, u64, u64, u64, u64))
    requires
        times.len() * 99 <= usize::MAX,
    ensures
        times@.len() == 0 ==> r == (0u64, 0u64, 0u64, 0u64, 0u64),
        times@.len() > 0 ==> exists|s: Seq<u64>| #![trigger ascending(s)]
            ascending(s) && s.to_multiset() == times@.to_multiset() && r == order_statistics_of(s),
{
    if times.len() == 0 {
        return (0, 0, 0, 0, 0);
    }
    let s = sorted_times(times);
    assert(s@.len() == times@.len()) by {
        vstd::seq_lib::to_multiset_len(s@);
        vstd::seq_lib::to_multiset_len(times@);
    }
    let n: usize = s.len();
    let p95: usize = if n * 95 / 100 < n { n * 95 / 100 } else { n - 1 };
    let p99: usize = if n * 99 / 100 < n { n * 99 / 100 } else { n - 1 };
    let r = (s[0], s[n - 1], s[n / 2], s[p95], s[p99]);
    assert(r == order_statistics_of(s@));
    r
}

/// The order statistics of sorted times are in order: least, median, 95th
/// and 99th percentile, greatest.
pub proof fn law_order_statistics_ordered(sorted: Seq<u64>)
    requires
        ascending(sorted),
        sorted.len() > 0,
    ensures
        order_statistics_of(sorted).0 <= order_statistics_of(sorted).2,
        order_statistics_of(sorted).2 <= order_statistics_of(sorted).3,
        order_statistics_of(sorted).3 <= order_statistics_of(sorted).4,
        order_statistics_of(sorted).4 <= order_statistics_of(sorted).1,
{
    let n = sorted.len();
    let m = (n / 2) as int;
    let a = percentile_index(n, 95);
    let b = percentile_index(n, 99);
    assert(n * 95 / 100 >= n / 2) by (nonlinear_arith)
        requires
            n > 0,
    ;
    assert(n * 99 / 100 >= n * 95 / 100) by (nonlinear_arith)
        requires
            n > 0,
    ;
    assert(0 <= m < n);
    assert(m <= a < n);
    assert(a <= b < n);
    assert(sorted[0] <= sorted[m]);
    assert(sorted[m] <= sorted[a]);
    assert(sorted[a] <= sorted[b]);
    assert(sorted[b] <= sorted[n - 1]);
}

/// The workloads a load test draws requests from.
#[derive(Debug, Clone, Copy, PartialEq, Eq, Structural)]
pub enum ScenarioKind {
    EmbeddingIntensive,
    SearchIntensive,
    MixedWorkload,
}

/// What validation reads of a response: an embedding's dimension, whether a
/// search answer is null, or the error text.
#[derive(Debug, Clone)]
pub enum ResponseShape {
    Embedding { dimension: usize },
    Search { is_null: bool },
    Batch,
    Mixed,
    Error(String),
}

/// The verdict on an embedding scenario's response.
pub open spec fn embedding_verdict(r: ResponseShape) -> Result<(), Seq<char>> {
    match r {
        ResponseShape::Embedding { dimension } => if dimension == 0 {
            Err("Empty embedding vector"@)
        } else if dimension != 384 {
            Err("Unexpected embedding dimension: "@ + decimal(dimension as nat))
        } else {
            Ok(())
        },
        ResponseShape::Error(e) => Err("Embedding error: "@ + e@),
        _ => Err("Unexpected response type for embedding scenario"@),
    }
}

/// The verdict on a search scenario's response.
pub open spec fn search_verdict(r: ResponseShape) -> Result<(), Seq<char>> {
    match r {
        ResponseShape::Search { is_null } => if is_null {
            Err("Null search results"@)
        } else {
            Ok(())
        },
        ResponseShape::Error(e) => Err("Search error: "@ + e@),
        _ => Err("Unexpected response type for search scenario"@),
    }
}

/// The verdict of scenario `kind` on a response: the mixed workload judges
/// embeddings and searches as their own scenarios do.
pub open spec fn scenario_verdict(kind: ScenarioKind, r: ResponseShape) -> Result<(), Seq<char>> {
    match kind {
        ScenarioKind::EmbeddingIntensive => embedding_verdict(r),
        ScenarioKind::SearchIntensive => search_verdict(r),
        ScenarioKind::MixedWorkload => match r {
            ResponseShape::Embedding { .. } => embedding_verdict(r),
            ResponseShape::Search { .. } => search_verdict(r),
            ResponseShape::Error(e) => Err("Mixed workload error: "@ + e@),
            _ => Err("Unexpected response type for mixed workload scenario"@),
        },
    }
}

/// `text` followed by `rest`.
fn text_then(text: &str, rest: &str) -> (r: String)
    ensures
        r@ == text@ + rest@,
{
    let mut v: Vec<char> = Vec::new();
    push_text(&mut v, text);
    push_text(&mut v, rest);
    string_from_chars(&v)
}

/// Checks a response as scenario `kind` does; the error says what is wrong.
pub fn validate_response(kind: ScenarioKind, response: &ResponseShape) -> (r: Result<(), String>)
    ensures
        match (r, scenario_verdict(kind, *response)) {
            (Ok(_), Ok(_)) => true,
            (Err(m), Err(t)) => m@ == t,
            _ => false,
        },
{
    match (kind, response) {
        (ScenarioKind::MixedWorkload, ResponseShape::Error(e)) => Err(text_then("Mixed workload error: ", e.as_str())),
        (ScenarioKind::MixedWorkload, ResponseShape::Batch) | (ScenarioKind::MixedWorkload, ResponseShape::Mixed) => Err(
            "Unexpected response type for mixed workload scenario".to_owned(),
        ),
        (ScenarioKind::SearchIntensive, _) | (ScenarioKind::MixedWorkload, ResponseShape::Search { .. }) => {
            match response {
                ResponseShape::Search { is_null } => if *is_null {
                    Err("Null search results".to_owned())
                } else {
                    Ok(())
                },
                ResponseShape::Error(e) => Err(text_then("Search error: ", e.as_str())),
                _ => Err("Unexpected response type for search scenario".to_owned()),
            }
        },
        _ => {
            match response {
                ResponseShape::Embedding { dimension } => if *dimension == 0 {
                    Err("Empty embedding vector".to_owned())
                } else if *dimension != 384 {
                    let mut v: Vec<char> = Vec::new();
                    push_text(&mut v, "Unexpected embedding dimension: ");
                    push_decimal(&mut v, *dimension as u64);
                    Err(string_from_chars(&v))
                } else {
                    Ok(())
                },
                ResponseShape::Error(e) => Err(text_then("Embedding error: ", e.as_str())),
                _ => Err("Unexpected response type for embedding scenario".to_owned()),
            }
        },
    }
}

/// The texts the embedding scenario embeds.
pub fn document_pool() -> (r: Vec<String>)
    ensures
        string_views(r@) == seq!["Machine learning algorithms enable computers to learn patterns from data without explicit programming."@, "Rust's ownership system prevents memory leaks and data races at compile time."@, "Vector databases optimize storage and retrieval of high-dimensional embeddings."@, "Semantic search uses meaning rather than keywords to find relevant documents."@, "Zero-latency systems require careful optimization of memory allocation and processing pipelines."@, "Production deployments must handle concurrent requests while maintaining response quality."@, "Load testing validates system performance under realistic usage scenarios."@, "Performance monitoring enables early detection of optimization regressions."@],
{
    let r = vec![
        "Machine learning algorithms enable computers to learn patterns from data without explicit programming.".to_owned(),
        "Rust's ownership system prevents memory leaks and data races at compile time.".to_owned(),
        "Vector databases optimize storage and retrieval of high-dimensional embeddings.".to_owned(),
        "Semantic search uses meaning rather than keywords to find relevant documents.".to_owned(),
        "Zero-latency systems require careful optimization of memory allocation and processing pipelines.".to_owned(),
        "Production deployments must handle concurrent requests while maintaining response quality.".to_owned(),
        "Load testing validates system performance under realistic usage scenarios.".to_owned(),
        "Performance monitoring enables early detection of optimization regressions.".to_owned(),
    ];
    assert(string_views(r@) =~= seq!["Machine learning algorithms enable computers to learn patterns from data without explicit programming."@, "Rust's ownership system prevents memory leaks and data races at compile time."@, "Vector databases optimize storage and retrieval of high-dimensional embeddings."@, "Semantic search uses meaning rather than keywords to find relevant documents."@, "Zero-latency systems require careful optimization of memory allocation and processing pipelines."@, "Production deployments must handle concurrent requests while maintaining response quality."@, "Load testing validates system performance under realistic usage scenarios."@, "Performance monitoring enables early detection of optimization regressions."@]);
    r
}

/// The queries the search scenario runs.
pub fn query_pool() -> (r: Vec<String>)
    ensures
        string_views(r@) == seq!["machine learning algorithms"@, "rust memory safety"@, "vector database optimization"@, "semantic search implementation"@, "production performance monitoring"@],
{
    let r = vec![
        "machine learning algorithms".to_owned(),
        "rust memory safety".to_owned(),
        "vector database optimization".to_owned(),
        "semantic search implementation".to_owned(),
        "production performance monitoring".to_owned(),
    ];
    assert(string_views(r@) =~= seq!["machine learning algorithms"@, "rust memory safety"@, "vector database optimization"@, "semantic search implementation"@, "production performance monitoring"@]);
    r
}

/// A scenario's name.
pub fn scenario_name(kind: ScenarioKind) -> (r: &'static str)
    ensures
        r@ == match kind {
            ScenarioKind::EmbeddingIntensive => "embedding_intensive"@,
            ScenarioKind::SearchIntensive => "search_intensive"@,
            ScenarioKind::MixedWorkload => "mixed_workload"@,
        },
{
    match kind {
        ScenarioKind::EmbeddingIntensive => "embedding_intensive",
        ScenarioKind::SearchIntensive => "search_intensive",
        ScenarioKind::MixedWorkload => "mixed_workload",
    }
}

/// How long a scenario's request may take, in seconds.
pub fn scenario_timeout_secs(kind: ScenarioKind) -> (r: u64)
    ensures
        r == match kind {
            ScenarioKind::EmbeddingIntensive => 5u64,
            ScenarioKind::SearchIntensive => 3u64,
            ScenarioKind::MixedWorkload => 10u64,
        },
{
    match kind {
        ScenarioKind::EmbeddingIntensive => 5,
        ScenarioKind::SearchIntensive => 3,
        ScenarioKind::MixedWorkload => 10,
    }
}


/// The counts a load test keeps while it runs: every successful request's
/// response time, each error type's count, and each scenario's requests and
/// successes.
pub struct MetricsCollector {
    response_times: Vec<Duration>,
    error_counts: Vec<(String, usize)>,
    scenario_requests: Vec<(String, usize)>,
    scenario_successes: Vec<(String, usize)>,
}

impl MetricsCollector {
    #[verifier::type_invariant]
    spec fn inv(self) -> bool {
        &&& unique_names(self.error_counts@)
        &&& unique_names(self.scenario_requests@)
        &&& unique_names(self.scenario_successes@)
    }

    /// The response times of the successful requests, in order.
    pub closed spec fn times(&self) -> Seq<Duration> {
        self.response_times@
    }

    /// How often each error type occurred.
    pub closed spec fn errors(&self) -> Counts {
        self.error_counts@
    }

    /// Each scenario's requests.
    pub closed spec fn requests(&self) -> Counts {
        self.scenario_requests@
    }

    /// Each scenario's successful requests.
    pub closed spec fn successes(&self) -> Counts {
        self.scenario_successes@
    }

    /// A collector with nothing recorded.
    pub fn new() -> (m: Self)
        ensures
            m.times().len() == 0,
            m.errors().len() == 0,
            m.requests().len() == 0,
            m.successes().len() == 0,
    {
        MetricsCollector {
            response_times: Vec::new(),
            error_counts: Vec::new(),
            scenario_requests: Vec::new(),
            scenario_successes: Vec::new(),
        }
    }

    /// Records a successful request of `scenario` answered in
    /// `response_time`: its time is kept, and the scenario's requests and
    /// successes go up by one.
    pub fn record_success(&mut self, scenario: &str, response_time: Duration)
        requires
            counts_below(old(self).requests(), 1),
            counts_below(old(self).successes(), 1),
        ensures
            final(self).times() == old(self).times().push(response_time),
            final(self).errors() == old(self).errors(),
            exists|k: String|
                k@ == scenario@ && final(self).requests() == #[trigger] bumped(old(self).requests(), k)
                    && final(self).successes() == bumped(old(self).successes(), k),
    {
        proof {
            use_type_invariant(&*self);
        }
        let key = scenario.to_owned();
        let mut times: Vec<Duration> = Vec::new();
        std::mem::swap(&mut times, &mut self.response_times);
        times.push(response_time);
        self.response_times = times;
        let mut requests: Vec<(String, usize)> = Vec::new();
        std::mem::swap(&mut requests, &mut self.scenario_requests);
        bump(&mut requests, &key);
        self.scenario_requests = requests;
        let mut successes: Vec<(String, usize)> = Vec::new();
        std::mem::swap(&mut successes, &mut self.scenario_successes);
        bump(&mut successes, &key);
        self.scenario_successes = successes;
    }

    /// Records a failed request of `scenario` with `error_type`: the error
    /// type's count and the scenario's requests go up by one.
    pub fn record_error(&mut self, scenario: &str, error_type: &str)
        requires
            counts_below(old(self).errors(), 1),
            counts_below(old(self).requests(), 1),
        ensures
            final(self).times() == old(self).times(),
            final(self).successes() == old(self).successes(),
            exists|e: String| e@ == error_type@ && final(self).errors() == #[trigger] bumped(old(self).errors(), e),
            exists|k: String| k@ == scenario@ && final(self).requests() == #[trigger] bumped(old(self).requests(), k),
    {
        proof {
            use_type_invariant(&*self);
        }
        let e = error_type.to_owned();
        let k = scenario.to_owned();
        let mut errors: Vec<(String, usize)> = Vec::new();
        std::mem::swap(&mut errors, &mut self.error_counts);
        bump(&mut errors, &e);
        self.error_counts = errors;
        let mut requests: Vec<(String, usize)> = Vec::new();
        std::mem::swap(&mut requests, &mut self.scenario_requests);
        bump(&mut requests, &k);
        self.scenario_requests = requests;
    }

    /// The number of successful requests recorded.
    pub fn total_requests(&self) -> (n: usize)
        ensures
            n == self.times().len(),
    {
        self.response_times.len()
    }

    /// The response times recorded.
    pub fn response_times(&self) -> (r: &Vec<Duration>)
        ensures
            r@ == self.times(),
    {
        &self.response_times
    }

    /// The count of each error type.
    pub fn error_counts(&self) -> (r: &Vec<(String, usize)>)
        ensures
            r@ == self.errors(),
    {
        &self.error_counts
    }

    /// Each scenario's requests and successes.
    pub fn scenario_counts(&self) -> (r: (&Vec<(String, usize)>, &Vec<(String, usize)>))
        ensures
            r.0@ == self.requests(),
            r.1@ == self.successes(),
    {
        (&self.scenario_requests, &self.scenario_successes)
    }
}

} // verus!
