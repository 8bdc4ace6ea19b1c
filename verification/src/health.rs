//! Health checks: the verdict of each probe and the overall status drawn
//! from all of them.

use vstd::prelude::*;
use std::time::Duration;
use crate::text::{decimal, push_decimal, push_decimal_wide, push_text, string_from_chars};
use crate::time::{duration_as_nanos, duration_from_secs, nanos_of};

verus! {

/// How a check, or the whole system, is doing.
#[derive(Debug, Clone, Copy, PartialEq, Eq, Structural)]
pub enum HealthStatus {
    Healthy,
    Degraded,
    Unhealthy,
}

/// The outcome of one check.
#[derive(Debug, Clone)]
pub struct HealthCheckResult {
    pub name: String,
    pub status: HealthStatus,
    pub message: String,
    pub duration: Duration,
    pub timestamp: u64,
    pub details: Vec<(String, String)>,
}

/// The outcome of all checks together.
#[derive(Debug, Clone)]
pub struct AggregatedHealthStatus {
    pub overall_status: HealthStatus,
    pub checks: Vec<HealthCheckResult>,
    pub summary: String,
    pub timestamp: u64,
    pub healthy_count: usize,
    pub degraded_count: usize,
    pub unhealthy_count: usize,
}

/// How many of `checks` have status `s`.
pub open spec fn count_status(checks: Seq<HealthCheckResult>, s: HealthStatus) -> nat
    decreases checks.len(),
{
    if checks.len() == 0 {
        0
    } else {
        count_status(checks.drop_last(), s) + if checks.last().status == s { 1nat } else { 0nat }
    }
}

/// The overall status: unhealthy if any check is, else degraded if any check
/// is, else healthy.
pub open spec fn overall_status_of(checks: Seq<HealthCheckResult>) -> HealthStatus {
    if count_status(checks, HealthStatus::Unhealthy) > 0 {
        HealthStatus::Unhealthy
    } else if count_status(checks, HealthStatus::Degraded) > 0 {
        HealthStatus::Degraded
    } else {
        HealthStatus::Healthy
    }
}

/// The one-line summary of `n` checks of which `h` are healthy, `d`
/// degraded and `u` unhealthy.
pub open spec fn health_summary(n: nat, h: nat, d: nat, u: nat) -> Seq<char> {
    "Health: "@ + decimal(n) + " checks ("@ + decimal(h) + "✅ "@ + decimal(d) + "⚠️ "@ + decimal(u)
        + "❌)"@
}

/// Each check has exactly one status.
proof fn lemma_counts_add_up(checks: Seq<HealthCheckResult>)
    ensures
        count_status(checks, HealthStatus::Healthy) + count_status(checks, HealthStatus::Degraded)
            + count_status(checks, HealthStatus::Unhealthy) == checks.len(),
    decreases checks.len(),
{
    if checks.len() > 0 {
        lemma_counts_add_up(checks.drop_last());
    }
}

/// A status counted in `checks` is the status of one of them.
proof fn lemma_count_witness(checks: Seq<HealthCheckResult>, s: HealthStatus)
    ensures
        count_status(checks, s) > 0 <==> exists|i: int| 0 <= i < checks.len() && (#[trigger] checks[i]).status == s,
    decreases checks.len(),
{
    if checks.len() > 0 {
        let init = checks.drop_last();
        lemma_count_witness(init, s);
        if count_status(init, s) > 0 {
            let i = choose|i: int| 0 <= i < init.len() && (#[trigger] init[i]).status == s;
            assert(checks[i] == init[i]);
        }
        if exists|i: int| 0 <= i < checks.len() && (#[trigger] checks[i]).status == s {
            let i = choose|i: int| 0 <= i < checks.len() && (#[trigger] checks[i]).status == s;
            if i < checks.len() - 1 {
                assert(init[i] == checks[i]);
            }
        }
    }
}

/// Aggregates the results of a round of checks made at `timestamp`.
pub fn aggregate_health(checks: Vec<HealthCheckResult>, timestamp: u64) -> (a: AggregatedHealthStatus)
    ensures
        a.checks@ == checks@,
        a.healthy_count == count_status(checks@, HealthStatus::Healthy),
        a.degraded_count == count_status(checks@, HealthStatus::Degraded),
        a.unhealthy_count == count_status(checks@, HealthStatus::Unhealthy),
        a.overall_status == overall_status_of(checks@),
        a.summary@ == health_summary(
            checks@.len(),
            count_status(checks@, HealthStatus::Healthy),
            count_status(checks@, HealthStatus::Degraded),
            count_status(checks@, HealthStatus::Unhealthy),
        ),
        a.timestamp == timestamp,
{
    let mut h: usize = 0;
    let mut d: usize = 0;
    let mut u: usize = 0;
    let mut i: usize = 0;
    while i < checks.len()
        invariant
            i <= checks.len(),
            h == count_status(checks@.take(i as int), HealthStatus::Healthy),
            d == count_status(checks@.take(i as int), HealthStatus::Degraded),
            u == count_status(checks@.take(i as int), HealthStatus::Unhealthy),
            h + d + u == i,
        decreases checks.len() - i,
    {
        proof {
            lemma_counts_add_up(checks@.take(i as int));
            assert(checks@.take(i + 1).drop_last() =~= checks@.take(i as int));
        }
        match checks[i].status {
            HealthStatus::Healthy => h = h + 1,
            HealthStatus::Degraded => d = d + 1,
            HealthStatus::Unhealthy => u = u + 1,
        }
        i = i + 1;
    }
    assert(checks@.take(checks.len() as int) =~= checks@);
    let overall = if u > 0 {
        HealthStatus::Unhealthy
    } else if d > 0 {
        HealthStatus::Degraded
    } else {
        HealthStatus::Healthy
    };
    let mut text: Vec<char> = Vec::new();
    push_text(&mut text, "Health: ");
    push_decimal(&mut text, checks.len() as u64);
    push_text(&mut text, " checks (");
    push_decimal(&mut text, h as u64);
    push_text(&mut text, "✅ ");
    push_decimal(&mut text, d as u64);
    push_text(&mut text, "⚠️ ");
    push_decimal(&mut text, u as u64);
    push_text(&mut text, "❌)");
    let summary = string_from_chars(&text);
    AggregatedHealthStatus {
        overall_status: overall,
        checks,
        summary,
        timestamp,
        healthy_count: h,
        degraded_count: d,
        unhealthy_count: u,
    }
}

/// The status reported before any round of checks has finished: unhealthy.
pub fn latest_overall(latest: &Option<AggregatedHealthStatus>) -> (s: HealthStatus)
    ensures
        s == match latest {
            Some(a) => a.overall_status,
            None => HealthStatus::Unhealthy,
        },
{
    match latest {
        Some(a) => a.overall_status,
        None => HealthStatus::Unhealthy,
    }
}

/// The result recorded for a check that did not answer within `timeout`.
pub fn timed_out_check(name: String, timeout: Duration, timestamp: u64) -> (r: HealthCheckResult)
    ensures
        r.name == name,
        r.status == HealthStatus::Unhealthy,
        r.message@ == "Health check timeout"@,
        r.duration == timeout,
        r.timestamp == timestamp,
        r.details@.len() == 0,
{
    HealthCheckResult {
        name,
        status: HealthStatus::Unhealthy,
        message: "Health check timeout".to_owned(),
        duration: timeout,
        timestamp,
        details: Vec::new(),
    }
}

/// What a probe of a dependency came back with.
#[derive(Debug, Clone)]
pub enum ProbeOutcome {
    /// It answered; the number is the size of the answer (an embedding's
    /// dimension, a search's result count).
    Answered(usize),
    /// It failed with this error.
    Failed(String),
    /// It did not answer in time.
    TimedOut,
}

/// Whole milliseconds of a duration.
pub open spec fn millis_of(d: Duration) -> nat {
    nanos_of(d) / 1_000_000
}

/// The views of a list of key-value pairs.
pub open spec fn pairs_view(v: Seq<(String, String)>) -> Seq<(Seq<char>, Seq<char>)> {
    v.map_values(|p: (String, String)| (p.0@, p.1@))
}

/// The status of a probe: unhealthy unless it answered, degraded when it
/// took longer than `slow_ms` milliseconds.
pub open spec fn probe_status(outcome: ProbeOutcome, took: Duration, slow_ms: nat) -> HealthStatus {
    match outcome {
        ProbeOutcome::Answered(_) => if nanos_of(took) > slow_ms * 1_000_000 {
            HealthStatus::Degraded
        } else {
            HealthStatus::Healthy
        },
        _ => HealthStatus::Unhealthy,
    }
}

/// The message of a probe of the dependency called `label`.
pub open spec fn probe_message(label: Seq<char>, outcome: ProbeOutcome, took: Duration, slow_ms: nat) -> Seq<char> {
    match outcome {
        ProbeOutcome::Answered(_) => if nanos_of(took) > slow_ms * 1_000_000 {
            label + " slow: "@ + decimal(millis_of(took)) + "ms"@
        } else {
            label + " healthy: "@ + decimal(millis_of(took)) + "ms"@
        },
        ProbeOutcome::Failed(e) => label + " error: "@ + e@,
        ProbeOutcome::TimedOut => label + " timeout"@,
    }
}

/// The details of a probe: the answer's size under `size_key` and the
/// response time, the error, or the time allowed.
pub open spec fn probe_details(size_key: Seq<char>, outcome: ProbeOutcome, took: Duration, timeout_ms: nat) -> Seq<(Seq<char>, Seq<char>)> {
    match outcome {
        ProbeOutcome::Answered(n) => seq![
            (size_key, decimal(n as nat)),
            ("response_time_ms"@, decimal(millis_of(took))),
        ],
        ProbeOutcome::Failed(e) => seq![("error"@, e@)],
        ProbeOutcome::TimedOut => seq![("timeout_ms"@, decimal(timeout_ms))],
    }
}

/// `label` followed by `text`.
fn labelled(label: &str, text: &str) -> (r: Vec<char>)
    ensures
        r@ == label@ + text@,
{
    let mut v: Vec<char> = Vec::new();
    push_text(&mut v, label);
    push_text(&mut v, text);
    v
}

/// The decimal whole milliseconds of `d`.
fn millis_text(d: &Duration) -> (r: String)
    ensures
        r@ == decimal(millis_of(*d)),
{
    let n: u128 = duration_as_nanos(d);
    let mut v: Vec<char> = Vec::new();
    push_decimal_wide(&mut v, n / 1_000_000);
    string_from_chars(&v)
}

/// The result of a probe of the dependency called `label`, made by the
/// check `name` at `timestamp`.
pub fn probe_result(
    name: String,
    label: &str,
    size_key: &str,
    slow_ms: u64,
    outcome: ProbeOutcome,
    took: Duration,
    timeout: Duration,
    timestamp: u64,
) -> (r: HealthCheckResult)
    ensures
        r.name == name,
        r.status == probe_status(outcome, took, slow_ms as nat),
        r.message@ == probe_message(label@, outcome, took, slow_ms as nat),
        pairs_view(r.details@) == probe_details(size_key@, outcome, took, millis_of(timeout)),
        r.duration == took,
        r.timestamp == timestamp,
{
    let slow: bool = duration_as_nanos(&took) > (slow_ms as u128) * 1_000_000;
    let (status, text, details) = match outcome {
        ProbeOutcome::Answered(n) => {
            let ms = millis_text(&took);
            let mut v = labelled(label, if slow { " slow: " } else { " healthy: " });
            push_text(&mut v, ms.as_str());
            push_text(&mut v, "ms");
            let mut size: Vec<char> = Vec::new();
            push_decimal(&mut size, n as u64);
            let details = vec![
                (size_key.to_owned(), string_from_chars(&size)),
                ("response_time_ms".to_owned(), ms),
            ];
            assert(pairs_view(details@) =~= probe_details(size_key@, outcome, took, millis_of(timeout)));
            (if slow { HealthStatus::Degraded } else { HealthStatus::Healthy }, v, details)
        },
        ProbeOutcome::Failed(e) => {
            let v = labelled(label, " error: ");
            let mut v = v;
            push_text(&mut v, e.as_str());
            let details = vec![("error".to_owned(), e)];
            assert(pairs_view(details@) =~= probe_details(size_key@, outcome, took, millis_of(timeout)));
            (HealthStatus::Unhealthy, v, details)
        },
        ProbeOutcome::TimedOut => {
            let v = labelled(label, " timeout");
            let details = vec![("timeout_ms".to_owned(), millis_text(&timeout))];
            assert(pairs_view(details@) =~= probe_details(size_key@, outcome, took, millis_of(timeout)));
            (HealthStatus::Unhealthy, v, details)
        },
    };
    HealthCheckResult { name, status, message: string_from_chars(&text), duration: took, timestamp, details }
}

/// The check of the embedding service: it asks for the embedding of a short
/// text, allows five seconds, and calls more than two seconds slow.
pub struct EmbeddingServiceHealthCheck {
    name: String,
}

impl EmbeddingServiceHealthCheck {
    /// The check's name.
    pub closed spec fn name_spec(&self) -> Seq<char> {
        self.name@
    }

    /// The check, named "embedding_service".
    pub fn new() -> (c: Self)
        ensures
            c.name_spec() == "embedding_service"@,
    {
        EmbeddingServiceHealthCheck { name: "embedding_service".to_owned() }
    }

    /// The check's name.
    pub fn name(&self) -> (r: &str)
        ensures
            r@ == self.name_spec(),
    {
        self.name.as_str()
    }

    /// The text whose embedding is asked for.
    pub fn probe_text() -> (r: &'static str)
        ensures
            r@ == "health check test"@,
    {
        "health check test"
    }

    /// How long the service may take: five seconds.
    pub fn timeout(&self) -> (d: Duration)
        ensures
            nanos_of(d) == 5_000_000_000,
    {
        duration_from_secs(5)
    }

    /// The result of a probe that came back with `outcome` after `took`.
    pub fn result(&self, outcome: ProbeOutcome, took: Duration, timestamp: u64) -> (r: HealthCheckResult)
        ensures
            r.name@ == self.name_spec(),
            r.status == probe_status(outcome, took, 2000),
            r.message@ == probe_message("Embedding service"@, outcome, took, 2000),
            pairs_view(r.details@) == probe_details("embedding_dimension"@, outcome, took, 5000),
            r.duration == took,
            r.timestamp == timestamp,
    {
        let timeout = self.timeout();
        probe_result(
            self.name.clone(),
            "Embedding service",
            "embedding_dimension",
            2000,
            outcome,
            took,
            timeout,
            timestamp,
        )
    }
}

/// The check of the vector store: it runs a small search, allows three
/// seconds, and calls more than one second slow.
pub struct VectorStoreHealthCheck {
    name: String,
}

impl VectorStoreHealthCheck {
    /// The check's name.
    pub closed spec fn name_spec(&self) -> Seq<char> {
        self.name@
    }

    /// The check, named "vector_store".
    pub fn new() -> (c: Self)
        ensures
            c.name_spec() == "vector_store"@,
    {
        VectorStoreHealthCheck { name: "vector_store".to_owned() }
    }

    /// The check's name.
    pub fn name(&self) -> (r: &str)
        ensures
            r@ == self.name_spec(),
    {
        self.name.as_str()
    }

    /// How many results the probe search asks for.
    pub fn probe_k() -> (k: usize)
        ensures
            k == 3,
    {
        3
    }

    /// How long the store may take: three seconds.
    pub fn timeout(&self) -> (d: Duration)
        ensures
            nanos_of(d) == 3_000_000_000,
    {
        duration_from_secs(3)
    }

    /// The result of a probe that came back with `outcome` after `took`.
    pub fn result(&self, outcome: ProbeOutcome, took: Duration, timestamp: u64) -> (r: HealthCheckResult)
        ensures
            r.name@ == self.name_spec(),
            r.status == probe_status(outcome, took, 1000),
            r.message@ == probe_message("Vector store"@, outcome, took, 1000),
            pairs_view(r.details@) == probe_details("results_count"@, outcome, took, 3000),
            r.duration == took,
            r.timestamp == timestamp,
    {
        let timeout = self.timeout();
        probe_result(self.name.clone(), "Vector store", "results_count", 1000, outcome, took, timeout, timestamp)
    }
}

/// The overall status is unhealthy exactly when some check is unhealthy, and
/// healthy exactly when every check is healthy.
pub proof fn law_overall_status(checks: Seq<HealthCheckResult>)
    ensures
        (overall_status_of(checks) == HealthStatus::Unhealthy) <==> exists|i: int|
            0 <= i < checks.len() && (#[trigger] checks[i]).status == HealthStatus::Unhealthy,
        (overall_status_of(checks) == HealthStatus::Healthy) <==> forall|i: int|
            0 <= i < checks.len() ==> (#[trigger] checks[i]).status == HealthStatus::Healthy,
{
    lemma_count_witness(checks, HealthStatus::Unhealthy);
    lemma_count_witness(checks, HealthStatus::Degraded);
    if overall_status_of(checks) == HealthStatus::Healthy {
        assert forall|i: int| 0 <= i < checks.len() implies (#[trigger] checks[i]).status == HealthStatus::Healthy by {
            if checks[i].status == HealthStatus::Unhealthy {
            } else if checks[i].status == HealthStatus::Degraded {
            }
        }
    }
    if forall|i: int| 0 <= i < checks.len() ==> (#[trigger] checks[i]).status == HealthStatus::Healthy {
        if count_status(checks, HealthStatus::Unhealthy) > 0 {
            let i = choose|i: int| 0 <= i < checks.len() && (#[trigger] checks[i]).status == HealthStatus::Unhealthy;
            assert(checks[i].status == HealthStatus::Healthy);
        }
        if count_status(checks, HealthStatus::Degraded) > 0 {
            let i = choose|i: int| 0 <= i < checks.len() && (#[trigger] checks[i]).status == HealthStatus::Degraded;
            assert(checks[i].status == HealthStatus::Healthy);
        }
    }
}

/// The three counts of an aggregate add up to the number of checks.
pub proof fn law_counts_cover_all_checks(checks: Seq<HealthCheckResult>)
    ensures
        count_status(checks, HealthStatus::Healthy) + count_status(checks, HealthStatus::Degraded)
            + count_status(checks, HealthStatus::Unhealthy) == checks.len(),
{
    lemma_counts_add_up(checks);
}

} // verus!
