//! Startup validation: the steps the service checks before it serves, the
//! decision to go on or stop after each step, and the verdict drawn from
//! the results.

use vstd::prelude::*;
use crate::env::{env_bool, env_flag, env_lookup, env_number, env_u64, env_view, lookup};
use crate::text::{
    chars_of, lowercase_of, push_str, seq_contains, str_contains, str_eq, string_views, to_lowercase,
    u64_to_string, decimal,
};

verus! {

/// One startup check: what it is, whether startup needs it to pass, how long
/// it may take and which steps it depends on.
#[derive(Debug, Clone)]
pub struct ValidationStep {
    pub id: String,
    pub name: String,
    pub description: String,
    pub required: bool,
    pub timeout_seconds: u64,
    pub dependencies: Vec<String>,
}

/// The view of a step.
pub open spec fn step_view(s: ValidationStep) -> (Seq<char>, Seq<char>, Seq<char>, bool, u64, Seq<Seq<char>>) {
    (s.id@, s.name@, s.description@, s.required, s.timeout_seconds, string_views(s.dependencies@))
}

/// The views of a list of steps.
pub open spec fn steps_view(s: Seq<ValidationStep>) -> Seq<(Seq<char>, Seq<char>, Seq<char>, bool, u64, Seq<Seq<char>>)> {
    s.map_values(|x: ValidationStep| step_view(x))
}

/// The outcome of one check.
#[derive(Debug, Clone)]
pub struct ValidationResult {
    pub step_id: String,
    pub passed: bool,
    pub message: String,
    pub execution_time_ms: u64,
    pub warnings: Vec<String>,
    pub completed_at: u64,
}

/// The machine the service starts on.
#[derive(Debug, Clone)]
pub struct SystemInfo {
    pub os: String,
    pub arch: String,
    pub available_memory_mb: u64,
    pub cpu_cores: u32,
    pub rust_version: String,
    pub app_version: String,
    /// The environment, without variables that may hold credentials.
    pub environment: Vec<(String, String)>,
}

/// The outcome of startup.
#[derive(Debug, Clone)]
pub struct StartupResult {
    pub success: bool,
    pub total_startup_time_ms: u64,
    /// Each step's outcome, under the step's id.
    pub step_results: Vec<(String, ValidationResult)>,
    pub critical_failures: Vec<String>,
    pub warnings: Vec<String>,
    pub system_info: SystemInfo,
    pub startup_timestamp: u64,
}

/// How startup validation runs.
#[derive(Debug, Clone)]
pub struct StartupConfig {
    pub startup_timeout_seconds: u64,
    pub continue_on_warnings: bool,
    pub enable_parallel_validation: bool,
    pub retry_attempts: u64,
    pub retry_delay_seconds: u64,
    pub save_startup_results: bool,
    pub results_file_path: String,
}

/// The default path of the saved startup results.
pub open spec fn default_results_path() -> Seq<char> {
    "./data/startup_results.json"@
}

/// The startup settings read from `env` (name/value views), with their
/// defaults.
pub open spec fn startup_config_from(env: Seq<(Seq<char>, Seq<char>)>, c: StartupConfig) -> bool {
    &&& c.startup_timeout_seconds == env_number(env, "STARTUP_TIMEOUT"@, u64::MAX as nat, 300)
    &&& c.continue_on_warnings == env_flag(env, "STARTUP_CONTINUE_ON_WARNINGS"@, true)
    &&& c.enable_parallel_validation == env_flag(env, "STARTUP_PARALLEL_VALIDATION"@, true)
    &&& c.retry_attempts == env_number(env, "STARTUP_RETRY_ATTEMPTS"@, u64::MAX as nat, 2)
    &&& c.retry_delay_seconds == env_number(env, "STARTUP_RETRY_DELAY"@, u64::MAX as nat, 5)
    &&& c.save_startup_results == env_flag(env, "STARTUP_SAVE_RESULTS"@, true)
    &&& c.results_file_path@ == match lookup(env, "STARTUP_RESULTS_FILE"@) {
        Some(v) => v,
        None => default_results_path(),
    }
}

impl StartupConfig {
    /// The settings from the given environment variables.
    pub fn from_env(env: &Vec<(String, String)>) -> (c: Self)
        ensures
            startup_config_from(env_view(env@), c),
    {
        StartupConfig {
            startup_timeout_seconds: env_u64(env, "STARTUP_TIMEOUT", u64::MAX, 300),
            continue_on_warnings: env_bool(env, "STARTUP_CONTINUE_ON_WARNINGS", true),
            enable_parallel_validation: env_bool(env, "STARTUP_PARALLEL_VALIDATION", true),
            retry_attempts: env_u64(env, "STARTUP_RETRY_ATTEMPTS", u64::MAX, 2),
            retry_delay_seconds: env_u64(env, "STARTUP_RETRY_DELAY", u64::MAX, 5),
            save_startup_results: env_bool(env, "STARTUP_SAVE_RESULTS", true),
            results_file_path: match env_lookup(env, "STARTUP_RESULTS_FILE") {
                Some(v) => v,
                None => "./data/startup_results.json".to_owned(),
            },
        }
    }
}

impl Default for StartupConfig {
    /// The settings with no variable set.
    fn default() -> (c: Self)
        ensures
            startup_config_from(Seq::empty(), c),
    {
        let env: Vec<(String, String)> = Vec::new();
        assert(env_view(env@) =~= Seq::empty());
        StartupConfig::from_env(&env)
    }
}

/// The standard startup steps: id, name, description, whether required,
/// timeout in seconds and the steps each depends on.
pub open spec fn standard_steps() -> Seq<(Seq<char>, Seq<char>, Seq<char>, bool, u64, Seq<Seq<char>>)> {
    seq![
        ("config_validation"@, "Configuration Validation"@, "Validate service configuration"@, true, 10, Seq::empty()),
        ("database_connectivity"@, "Database Connectivity"@, "Test database connection"@, true, 30, seq!["config_validation"@]),
        ("vector_store_initialization"@, "Vector Store Initialization"@, "Initialize and test vector store"@, true, 60, seq!["config_validation"@]),
        ("embedding_service_check"@, "Embedding Service Check"@, "Test embedding service connectivity"@, true, 30, seq!["config_validation"@]),
        ("memory_pool_initialization"@, "Memory Pool Initialization"@, "Initialize memory optimization pools"@, false, 15, Seq::empty()),
        ("health_check_endpoints"@, "Health Check Endpoints"@, "Verify health check endpoints are responsive"@, false, 10, seq!["vector_store_initialization"@, "embedding_service_check"@]),
    ]
}

/// What each standard step's check reports: id, message and time taken.
pub open spec fn standard_outcomes() -> Seq<(Seq<char>, Seq<char>, u64)> {
    seq![
        ("config_validation"@, "Configuration is valid"@, 50),
        ("database_connectivity"@, "Database connection successful"@, 200),
        ("vector_store_initialization"@, "Vector store initialized successfully"@, 1500),
        ("embedding_service_check"@, "Embedding service is accessible"@, 800),
        ("memory_pool_initialization"@, "Memory pools initialized"@, 300),
        ("health_check_endpoints"@, "Health check endpoints are responsive"@, 100),
    ]
}

/// `a: b`, as messages are labelled.
pub open spec fn labelled(a: Seq<char>, b: Seq<char>) -> Seq<char> {
    a + ": "@ + b
}

/// `a: b`.
pub fn label(a: &str, b: &str) -> (r: String)
    ensures
        r@ == labelled(a@, b@),
{
    let mut r = a.to_owned();
    push_str(&mut r, ": ");
    push_str(&mut r, b);
    r
}

/// The index of the first step with id `id`.
pub open spec fn first_step(steps: Seq<ValidationStep>, id: Seq<char>) -> Option<int>
    decreases steps.len(),
{
    if steps.len() == 0 {
        None
    } else if steps[0].id@ == id {
        Some(0)
    } else {
        match first_step(steps.drop_first(), id) {
            Some(i) => Some(i + 1),
            None => None,
        }
    }
}

/// The first step with an id is a step with that id.
pub proof fn lemma_first_step(steps: Seq<ValidationStep>, id: Seq<char>)
    ensures
        match first_step(steps, id) {
            Some(i) => 0 <= i < steps.len() && steps[i].id@ == id,
            None => forall|k: int| 0 <= k < steps.len() ==> (#[trigger] steps[k]).id@ != id,
        },
    decreases steps.len(),
{
    if steps.len() > 0 && steps[0].id@ != id {
        lemma_first_step(steps.drop_first(), id);
        assert forall|k: int| 0 < k < steps.len() implies (#[trigger] steps[k]).id@ == steps.drop_first()[k - 1].id@ by {}
    }
}

/// `b` is a copy of `a`: the same keys, and results with the same fields.
pub open spec fn copied_results(a: Seq<(String, ValidationResult)>, b: Seq<(String, ValidationResult)>) -> bool {
    &&& a.len() == b.len()
    &&& forall|i: int| 0 <= i < a.len() ==> {
        let x = #[trigger] a[i];
        let y = b[i];
        &&& x.0@ == y.0@
        &&& x.1.step_id@ == y.1.step_id@
        &&& x.1.passed == y.1.passed
        &&& x.1.message@ == y.1.message@
        &&& x.1.execution_time_ms == y.1.execution_time_ms
        &&& x.1.warnings@ == y.1.warnings@
        &&& x.1.completed_at == y.1.completed_at
    }
}

/// No result failed at a required step.
pub open spec fn results_succeed(steps: Seq<ValidationStep>, results: Seq<(String, ValidationResult)>) -> bool {
    forall|k: int|
        0 <= k < results.len() && !(#[trigger] results[k]).1.passed ==> match first_step(steps, results[k].0@) {
            Some(i) => !steps[i].required,
            None => true,
        }
}

/// For each failed result at a required step, in order: the step's name and
/// the result's message.
pub open spec fn critical_failures_of(steps: Seq<ValidationStep>, results: Seq<(String, ValidationResult)>) -> Seq<Seq<char>>
    decreases results.len(),
{
    if results.len() == 0 {
        Seq::empty()
    } else {
        let prev = critical_failures_of(steps, results.drop_last());
        let r = results.last();
        match first_step(steps, r.0@) {
            Some(i) => if !r.1.passed && steps[i].required {
                prev.push(labelled(steps[i].name@, r.1.message@))
            } else {
                prev
            },
            None => prev,
        }
    }
}

/// Startup succeeds exactly when no critical failure is reported.
pub proof fn law_success_iff_no_critical_failures(steps: Seq<ValidationStep>, results: Seq<(String, ValidationResult)>)
    ensures
        results_succeed(steps, results) <==> critical_failures_of(steps, results).len() == 0,
    decreases results.len(),
{
    if results.len() > 0 {
        let init = results.drop_last();
        law_success_iff_no_critical_failures(steps, init);
        let last = results.len() - 1;
        if results_succeed(steps, results) {
            assert forall|k: int| 0 <= k < init.len() && !(#[trigger] init[k]).1.passed implies match first_step(
                steps,
                init[k].0@,
            ) {
                Some(i) => !steps[i].required,
                None => true,
            } by {
                assert(results[k] == init[k]);
            }
            assert(!results[last].1.passed ==> match first_step(steps, results[last].0@) {
                Some(i) => !steps[i].required,
                None => true,
            });
        }
        if critical_failures_of(steps, results).len() == 0 {
            assert forall|k: int| 0 <= k < results.len() && !(#[trigger] results[k]).1.passed implies match first_step(
                steps,
                results[k].0@,
            ) {
                Some(i) => !steps[i].required,
                None => true,
            } by {
                if k < init.len() {
                    assert(results[k] == init[k]);
                }
            }
        }
    }
}

/// The warnings a result contributes: its failure, when its step is not
/// required, then each of its own warnings under the step id.
pub open spec fn result_warnings(steps: Seq<ValidationStep>, key: Seq<char>, r: ValidationResult) -> Seq<Seq<char>> {
    let failure: Seq<Seq<char>> = match first_step(steps, key) {
        Some(i) => if !r.passed && !steps[i].required {
            seq![labelled(steps[i].name@, r.message@)]
        } else {
            Seq::empty()
        },
        None => Seq::empty(),
    };
    failure + string_views(r.warnings@).map_values(|w: Seq<char>| labelled(key, w))
}

/// All warnings of the results, in order.
pub open spec fn warnings_of(steps: Seq<ValidationStep>, results: Seq<(String, ValidationResult)>) -> Seq<Seq<char>>
    decreases results.len(),
{
    if results.len() == 0 {
        Seq::empty()
    } else {
        warnings_of(steps, results.drop_last()) + result_warnings(steps, results.last().0@, results.last().1)
    }
}

/// No key occurs twice.
pub open spec fn unique_result_keys(results: Seq<(String, ValidationResult)>) -> bool {
    forall|i: int, j: int| 0 <= i < results.len() && 0 <= j < results.len() && i != j ==> results[i].0@ != results[j].0@
}

/// The results with `r` stored under `key`: in place of an earlier result
/// under `key`, or appended.
pub open spec fn store_result(results: Seq<(String, ValidationResult)>, key: String, r: ValidationResult) -> Seq<(String, ValidationResult)> {
    if exists|i: int| 0 <= i < results.len() && #[trigger] results[i].0@ == key@ {
        let i = choose|i: int| 0 <= i < results.len() && #[trigger] results[i].0@ == key@;
        results.update(i, (key, r))
    } else {
        results.push((key, r))
    }
}

/// A check is tried again when it failed and attempts are left.
pub open spec fn retry_wanted(passed: bool, attempts: u64, max_attempts: u64) -> bool {
    !passed && attempts < max_attempts
}

/// Runs the startup steps and keeps their results.
pub struct StartupValidator {
    validation_steps: Vec<ValidationStep>,
    config: StartupConfig,
    results: Vec<(String, ValidationResult)>,
}

impl StartupValidator {
    #[verifier::type_invariant]
    spec fn inv(self) -> bool {
        unique_result_keys(self.results@)
    }

    /// The steps, in order.
    pub closed spec fn steps(&self) -> Seq<ValidationStep> {
        self.validation_steps@
    }

    /// The results so far, each under its step's id.
    pub closed spec fn results(&self) -> Seq<(String, ValidationResult)> {
        self.results@
    }

    /// The settings.
    pub closed spec fn settings(&self) -> StartupConfig {
        self.config
    }

    /// A validator with no steps and no results.
    pub fn new(config: StartupConfig) -> (v: Self)
        ensures
            v.steps() == Seq::<ValidationStep>::empty(),
            v.results() == Seq::<(String, ValidationResult)>::empty(),
            v.settings() == config,
    {
        StartupValidator { validation_steps: Vec::new(), config, results: Vec::new() }
    }

    /// Appends a step.
    pub fn add_step(&mut self, step: ValidationStep)
        ensures
            final(self).steps() == old(self).steps().push(step),
            final(self).results() == old(self).results(),
            final(self).settings() == old(self).settings(),
    {
        proof {
            use_type_invariant(&*self);
        }
        let mut steps: Vec<ValidationStep> = Vec::new();
        std::mem::swap(&mut steps, &mut self.validation_steps);
        steps.push(step);
        self.validation_steps = steps;
    }

    /// Appends steps, in order.
    pub fn add_steps(&mut self, steps: Vec<ValidationStep>)
        ensures
            final(self).steps() == old(self).steps() + steps@,
            final(self).results() == old(self).results(),
            final(self).settings() == old(self).settings(),
    {
        proof {
            use_type_invariant(&*self);
        }
        let mut added = steps;
        let mut steps: Vec<ValidationStep> = Vec::new();
        std::mem::swap(&mut steps, &mut self.validation_steps);
        steps.append(&mut added);
        self.validation_steps = steps;
    }

    /// The steps.
    pub fn validation_steps(&self) -> (r: &Vec<ValidationStep>)
        ensures
            r@ == self.steps(),
    {
        &self.validation_steps
    }

    /// The results.
    pub fn step_results(&self) -> (r: &Vec<(String, ValidationResult)>)
        ensures
            r@ == self.results(),
    {
        &self.results
    }

    /// How often the step at `index` is tried: once more than the retries
    /// when it is required, once otherwise.
    pub fn max_attempts(&self, index: usize) -> (r: u64)
        requires
            index < self.steps().len(),
            self.steps()[index as int].required ==> self.settings().retry_attempts < u64::MAX,
        ensures
            r == if self.steps()[index as int].required { self.settings().retry_attempts + 1 } else { 1 },
    {
        if self.validation_steps[index].required {
            self.config.retry_attempts + 1
        } else {
            1
        }
    }

    /// Whether a check is tried again after `attempts` attempts.
    pub fn should_retry(passed: bool, attempts: u64, max_attempts: u64) -> (r: bool)
        ensures
            r == retry_wanted(passed, attempts, max_attempts),
    {
        !(passed || attempts >= max_attempts)
    }

    /// The result of a check that ran out of time at `now`.
    pub fn timeout_result(step: &ValidationStep, now: u64) -> (r: ValidationResult)
        ensures
            r.step_id@ == step.id@,
            !r.passed,
            r.message@ == "Validation step timed out after "@ + decimal(step.timeout_seconds as nat) + " seconds"@,
            r.execution_time_ms == (step.timeout_seconds as u128 * 1000) as u64,
            r.warnings@.len() == 0,
            r.completed_at == now,
    {
        let mut message = "Validation step timed out after ".to_owned();
        let secs = u64_to_string(step.timeout_seconds);
        push_str(&mut message, secs.as_str());
        push_str(&mut message, " seconds");
        let ms: u128 = step.timeout_seconds as u128 * 1000;
        ValidationResult {
            step_id: step.id.clone(),
            passed: false,
            message,
            execution_time_ms: ms as u64,
            warnings: Vec::new(),
            completed_at: now,
        }
    }

    /// Records the outcome of the step at `index` under the step's id and
    /// says whether validation goes on: it stops when a required step failed.
    pub fn record_step_result(&mut self, index: usize, result: ValidationResult) -> (go_on: bool)
        requires
            index < old(self).steps().len(),
        ensures
            final(self).steps() == old(self).steps(),
            final(self).settings() == old(self).settings(),
            final(self).results() == store_result(old(self).results(), old(self).steps()[index as int].id, result),
            go_on == (result.passed || !old(self).steps()[index as int].required),
    {
        proof {
            use_type_invariant(&*self);
        }
        let key = self.validation_steps[index].id.clone();
        let required = self.validation_steps[index].required;
        let passed = result.passed;
        let ghost rs = self.results@;
        let ghost k2 = key;
        let mut found: Option<usize> = None;
        let mut i: usize = 0;
        while i < self.results.len()
            invariant
                i <= self.results.len(),
                self.results@ == rs,
                k2 == key,
                found is None ==> forall|m: int| 0 <= m < i ==> rs[m].0@ != key@,
                found is Some ==> found->0 < rs.len() && rs[found->0 as int].0@ == key@,
            decreases self.results.len() - i,
        {
            if found.is_none() && self.results[i].0 == key {
                found = Some(i);
            }
            i = i + 1;
        }
        let mut results: Vec<(String, ValidationResult)> = Vec::new();
        std::mem::swap(&mut results, &mut self.results);
        match found {
            Some(j) => {
                proof {
                    let c = choose|c: int| 0 <= c < rs.len() && #[trigger] rs[c].0@ == k2@;
                    assert(c == j);
                }
                results.set(j, (key, result));
                assert forall|a: int, b: int| 0 <= a < results@.len() && 0 <= b < results@.len() && a != b implies results@[a].0@ != results@[b].0@ by {
                    assert(results@[a].0@ == rs[a].0@);
                    assert(results@[b].0@ == rs[b].0@);
                }
            },
            None => {
                results.push((key, result));
                assert forall|a: int, b: int| 0 <= a < results@.len() && 0 <= b < results@.len() && a != b implies results@[a].0@ != results@[b].0@ by {
                    if a < rs.len() {
                        assert(results@[a] == rs[a]);
                    }
                    if b < rs.len() {
                        assert(results@[b] == rs[b]);
                    }
                }
            },
        }
        self.results = results;
        passed || !required
    }

    /// The index of the first step with id `id`.
    fn find_step(&self, id: &String) -> (r: Option<usize>)
        ensures
            match r {
                Some(i) => first_step(self.steps(), id@) == Some(i as int) && i < self.steps().len(),
                None => first_step(self.steps(), id@) is None,
            },
    {
        proof {
            lemma_first_step(self.steps(), id@);
        }
        let ghost st = self.validation_steps@;
        let mut i: usize = 0;
        assert(st.skip(0) == st);
        while i < self.validation_steps.len()
            invariant
                i <= st.len(),
                st == self.validation_steps@,
                first_step(st, id@) == match first_step(st.skip(i as int), id@) {
                    Some(k) => Some(k + i),
                    None => None,
                },
            decreases st.len() - i,
        {
            if self.validation_steps[i].id == *id {
                assert(st.skip(i as int)[0] == st[i as int]);
                return Some(i);
            }
            assert(st.skip(i as int).drop_first() == st.skip(i + 1));
            i = i + 1;
        }
        None
    }

    /// The verdict on the results: success when no required step failed, the
    /// failures of required steps, and the warnings (failures of other steps
    /// and the steps' own warnings).
    pub fn analyze_results(&self) -> (r: (bool, Vec<String>, Vec<String>))
        ensures
            r.0 == results_succeed(self.steps(), self.results()),
            string_views(r.1@) == critical_failures_of(self.steps(), self.results()),
            string_views(r.2@) == warnings_of(self.steps(), self.results()),
    {
        let ghost st = self.steps();
        let ghost rs = self.results();
        let mut success = true;
        let mut critical: Vec<String> = Vec::new();
        let mut warnings: Vec<String> = Vec::new();
        let mut k: usize = 0;
        while k < self.results.len()
            invariant
                k <= rs.len(),
                st == self.steps(),
                rs == self.results(),
                success == results_succeed(st, rs.take(k as int)),
                string_views(critical@) == critical_failures_of(st, rs.take(k as int)),
                string_views(warnings@) == warnings_of(st, rs.take(k as int)),
            decreases rs.len() - k,
        {
            let ghost cur = rs.take(k + 1);
            assert(cur.drop_last() == rs.take(k as int));
            assert(cur.last() == rs[k as int]);
            let key = &self.results[k].0;
            let result = &self.results[k].1;
            let ghost w0 = string_views(warnings@);
            let found = self.find_step(key);
            if !result.passed {
                match found {
                    Some(i) => {
                        let line = label(self.validation_steps[i].name.as_str(), result.message.as_str());
                        if self.validation_steps[i].required {
                            success = false;
                            let ghost c0 = critical@;
                            critical.push(line);
                            assert(string_views(critical@) =~= string_views(c0).push(line@));
                        } else {
                            warnings.push(line);
                            assert(string_views(warnings@) =~= w0.push(line@));
                        }
                    },
                    None => {},
                }
            }
            let ghost w1 = string_views(warnings@);
            let mut j: usize = 0;
            while j < result.warnings.len()
                invariant
                    j <= result.warnings.len(),
                    string_views(warnings@) == w1 + string_views(result.warnings@).map_values(|w: Seq<char>| labelled(key@, w)).take(j as int),
                decreases result.warnings.len() - j,
            {
                let line = label(key.as_str(), result.warnings[j].as_str());
                let ghost before = warnings@;
                warnings.push(line);
                assert(string_views(warnings@) =~= string_views(before).push(line@));
                assert(string_views(result.warnings@).map_values(|w: Seq<char>| labelled(key@, w)).take(j + 1)
                    =~= string_views(result.warnings@).map_values(|w: Seq<char>| labelled(key@, w)).take(j as int).push(labelled(key@, result.warnings@[j as int]@)));
                j = j + 1;
            }
            assert(string_views(result.warnings@).map_values(|w: Seq<char>| labelled(key@, w)).take(result.warnings.len() as int)
                =~= string_views(result.warnings@).map_values(|w: Seq<char>| labelled(key@, w)));
            assert(string_views(warnings@) =~= warnings_of(st, cur)) by {
                assert(warnings_of(st, cur) == warnings_of(st, rs.take(k as int)) + result_warnings(st, rs[k as int].0@, rs[k as int].1));
            }
            assert(success == results_succeed(st, cur)) by {
                if success {
                    assert forall|m: int| 0 <= m < cur.len() && !(#[trigger] cur[m]).1.passed implies match first_step(st, cur[m].0@) {
                        Some(i) => !st[i].required,
                        None => true,
                    } by {
                        if m < k {
                            assert(cur[m] == rs.take(k as int)[m]);
                        }
                    }
                } else {
                    if results_succeed(st, rs.take(k as int)) {
                        assert(!cur[k as int].1.passed);
                    } else {
                        let m = choose|m: int| 0 <= m < k && !(#[trigger] rs.take(k as int)[m]).1.passed && match first_step(st, rs.take(k as int)[m].0@) {
                            Some(i) => st[i].required,
                            None => false,
                        };
                        assert(cur[m] == rs.take(k as int)[m]);
                    }
                }
            }
            k = k + 1;
        }
        assert(rs.take(rs.len() as int) == rs);
        (success, critical, warnings)
    }

    /// The standard startup steps of the indexer.
    pub fn create_standard_steps() -> (r: Vec<ValidationStep>)
        ensures
            steps_view(r@) == standard_steps(),
    {
        let r = vec![
            ValidationStep {
                id: "config_validation".to_owned(),
                name: "Configuration Validation".to_owned(),
                description: "Validate service configuration".to_owned(),
                required: true,
                timeout_seconds: 10,
                dependencies: Vec::new(),
            },
            ValidationStep {
                id: "database_connectivity".to_owned(),
                name: "Database Connectivity".to_owned(),
                description: "Test database connection".to_owned(),
                required: true,
                timeout_seconds: 30,
                dependencies: vec!["config_validation".to_owned()],
            },
            ValidationStep {
                id: "vector_store_initialization".to_owned(),
                name: "Vector Store Initialization".to_owned(),
                description: "Initialize and test vector store".to_owned(),
                required: true,
                timeout_seconds: 60,
                dependencies: vec!["config_validation".to_owned()],
            },
            ValidationStep {
                id: "embedding_service_check".to_owned(),
                name: "Embedding Service Check".to_owned(),
                description: "Test embedding service connectivity".to_owned(),
                required: true,
                timeout_seconds: 30,
                dependencies: vec!["config_validation".to_owned()],
            },
            ValidationStep {
                id: "memory_pool_initialization".to_owned(),
                name: "Memory Pool Initialization".to_owned(),
                description: "Initialize memory optimization pools".to_owned(),
                required: false,
                timeout_seconds: 15,
                dependencies: Vec::new(),
            },
            ValidationStep {
                id: "health_check_endpoints".to_owned(),
                name: "Health Check Endpoints".to_owned(),
                description: "Verify health check endpoints are responsive".to_owned(),
                required: false,
                timeout_seconds: 10,
                dependencies: vec!["vector_store_initialization".to_owned(), "embedding_service_check".to_owned()],
            },
        ];
        proof {
            assert(steps_view(r@)[0].5 =~= standard_steps()[0].5);
            assert(steps_view(r@)[1].5 =~= standard_steps()[1].5);
            assert(steps_view(r@)[2].5 =~= standard_steps()[2].5);
            assert(steps_view(r@)[3].5 =~= standard_steps()[3].5);
            assert(steps_view(r@)[4].5 =~= standard_steps()[4].5);
            assert(steps_view(r@)[5].5 =~= standard_steps()[5].5);
            assert(steps_view(r@) =~= standard_steps());
        }
        r
    }
}

/// Whether an environment variable's name may hold a credential: its
/// lower-case form mentions a password, secret, token or key.
pub open spec fn sensitive_name(name: Seq<char>) -> bool {
    let low = lowercase_of(name);
    seq_contains(low, "password"@) || seq_contains(low, "secret"@) || seq_contains(low, "token"@) || seq_contains(low, "key"@)
}

/// The variables whose names are not sensitive, in order.
pub open spec fn public_vars(vars: Seq<(Seq<char>, Seq<char>)>) -> Seq<(Seq<char>, Seq<char>)>
    decreases vars.len(),
{
    if vars.len() == 0 {
        Seq::empty()
    } else if sensitive_name(vars.last().0) {
        public_vars(vars.drop_last())
    } else {
        public_vars(vars.drop_last()).push(vars.last())
    }
}

/// The environment variables without those that may hold credentials.
pub fn filter_environment(vars: &Vec<(String, String)>) -> (r: Vec<(String, String)>)
    ensures
        env_view(r@) == public_vars(env_view(vars@)),
{
    let ghost vv = env_view(vars@);
    let mut r: Vec<(String, String)> = Vec::new();
    let mut i: usize = 0;
    while i < vars.len()
        invariant
            i <= vars.len(),
            vv == env_view(vars@),
            env_view(r@) == public_vars(vv.take(i as int)),
        decreases vars.len() - i,
    {
        let ghost cur = vv.take(i + 1);
        assert(cur.drop_last() == vv.take(i as int));
        assert(cur.last() == (vars@[i as int].0@, vars@[i as int].1@));
        let low = to_lowercase(vars[i].0.as_str());
        let l = low.as_str();
        let sensitive = str_contains(l, "password") || str_contains(l, "secret") || str_contains(l, "token")
            || str_contains(l, "key");
        if !sensitive {
            let ghost before = r@;
            r.push((vars[i].0.clone(), vars[i].1.clone()));
            assert(env_view(r@) =~= env_view(before).push((vars@[i as int].0@, vars@[i as int].1@)));
        }
        i = i + 1;
    }
    assert(vv.take(vars.len() as int) == vv);
    r
}

/// `num_cpus::get`: the number of logical processors the process may use.
/// It depends on the machine; the crate's documentation promises at least one.
#[verifier::external_body]
fn cpu_count() -> (n: usize)
    ensures
        n >= 1,
{
    num_cpus::get()
}

/// The system information: the given platform and versions, the processors
/// counted by `num_cpus` (at least one, taken as a `u32`), memory not measured (zero), and the environment
/// without sensitive variables.
pub fn collect_system_info(vars: &Vec<(String, String)>, os: &str, arch: &str, rust_version: &str, app_version: &str) -> (s: SystemInfo)
    ensures
        s.os@ == os@,
        s.arch@ == arch@,
        s.available_memory_mb == 0,
        exists|n: usize| n >= 1 && s.cpu_cores == #[trigger] (n as u32),
        s.rust_version@ == rust_version@,
        s.app_version@ == app_version@,
        env_view(s.environment@) == public_vars(env_view(vars@)),
{
    let cores = cpu_count();
    assert(cores >= 1 && (cores as u32) == cores as u32);
    SystemInfo {
        os: os.to_owned(),
        arch: arch.to_owned(),
        available_memory_mb: 0,
        cpu_cores: cores as u32,
        rust_version: rust_version.to_owned(),
        app_version: app_version.to_owned(),
        environment: filter_environment(vars),
    }
}

impl StartupValidator {
    /// The startup outcome: successful when the steps ran through and no
    /// required step failed.
    pub fn startup_result(&self, validation_success: bool, total_startup_time_ms: u64, system_info: SystemInfo, startup_timestamp: u64) -> (r: StartupResult)
        ensures
            r.success == (validation_success && results_succeed(self.steps(), self.results())),
            r.total_startup_time_ms == total_startup_time_ms,
            copied_results(self.results(), r.step_results@),
            string_views(r.critical_failures@) == critical_failures_of(self.steps(), self.results()),
            string_views(r.warnings@) == warnings_of(self.steps(), self.results()),
            r.system_info == system_info,
            r.startup_timestamp == startup_timestamp,
    {
        let (success, critical_failures, warnings) = self.analyze_results();
        StartupResult {
            success: validation_success && success,
            total_startup_time_ms,
            step_results: clone_results(&self.results),
            critical_failures,
            warnings,
            system_info,
            startup_timestamp,
        }
    }
}

/// A copy of a result list.
fn clone_results(rs: &Vec<(String, ValidationResult)>) -> (r: Vec<(String, ValidationResult)>)
    ensures
        copied_results(rs@, r@),
{
    let mut r: Vec<(String, ValidationResult)> = Vec::new();
    let mut i: usize = 0;
    while i < rs.len()
        invariant
            i <= rs.len(),
            r@.len() == i,
            copied_results(rs@.take(i as int), r@),
        decreases rs.len() - i,
    {
        let res = &rs[i].1;
        let copy = ValidationResult {
            step_id: rs[i].1.step_id.clone(),
            passed: res.passed,
            message: res.message.clone(),
            execution_time_ms: res.execution_time_ms,
            warnings: clone_strings(&res.warnings),
            completed_at: res.completed_at,
        };
        let ghost before = r@;
        r.push((rs[i].0.clone(), copy));
        assert forall|m: int| 0 <= m < i + 1 implies {
            let x = #[trigger] rs@.take(i + 1)[m];
            let y = r@[m];
            &&& x.0@ == y.0@
            &&& x.1.step_id@ == y.1.step_id@
            &&& x.1.passed == y.1.passed
            &&& x.1.message@ == y.1.message@
            &&& x.1.execution_time_ms == y.1.execution_time_ms
            &&& x.1.warnings@ == y.1.warnings@
            &&& x.1.completed_at == y.1.completed_at
        } by {
            if m < i {
                assert(rs@.take(i + 1)[m] == rs@.take(i as int)[m]);
                assert(r@[m] == before[m]);
            }
        }
        i = i + 1;
    }
    assert(rs@.take(rs.len() as int) == rs@);
    r
}

/// A copy of a list of strings.
pub fn clone_strings(v: &Vec<String>) -> (r: Vec<String>)
    ensures
        r@ == v@,
{
    let mut r: Vec<String> = Vec::new();
    let mut i: usize = 0;
    while i < v.len()
        invariant
            i <= v.len(),
            r@ == v@.take(i as int),
        decreases v.len() - i,
    {
        r.push(v[i].clone());
        assert(r@ =~= v@.take(i + 1));
        i = i + 1;
    }
    assert(v@.take(v.len() as int) == v@);
    r
}

/// The canned report of a standard step's check, made at `now`: it passes,
/// with the step's message and time taken. `None` for any other id.
pub fn standard_step_check(step_id: &str, now: u64) -> (r: Option<ValidationResult>)
    ensures
        (exists|k: int| 0 <= k < standard_outcomes().len() && #[trigger] standard_outcomes()[k].0 == step_id@)
            <==> r is Some,
        r is Some ==> exists|k: int|
            0 <= k < standard_outcomes().len() && #[trigger] standard_outcomes()[k].0 == step_id@ && {
                let v = r->0;
                &&& v.step_id@ == step_id@
                &&& v.passed
                &&& v.message@ == standard_outcomes()[k].1
                &&& v.execution_time_ms == standard_outcomes()[k].2
                &&& v.warnings@.len() == 0
                &&& v.completed_at == now
            },
{
    let table: Vec<(&str, &str, u64)> = vec![
        ("config_validation", "Configuration is valid", 50),
        ("database_connectivity", "Database connection successful", 200),
        ("vector_store_initialization", "Vector store initialized successfully", 1500),
        ("embedding_service_check", "Embedding service is accessible", 800),
        ("memory_pool_initialization", "Memory pools initialized", 300),
        ("health_check_endpoints", "Health check endpoints are responsive", 100),
    ];
    let ghost tv = table@.map_values(|t: (&str, &str, u64)| (t.0@, t.1@, t.2));
    assert(tv =~= standard_outcomes());
    let mut i: usize = 0;
    while i < table.len()
        invariant
            i <= table.len(),
            tv == table@.map_values(|t: (&str, &str, u64)| (t.0@, t.1@, t.2)),
            tv == standard_outcomes(),
            forall|m: int| 0 <= m < i ==> tv[m].0 != step_id@,
        decreases table.len() - i,
    {
        if str_eq(table[i].0, step_id) {
            let r = ValidationResult {
                step_id: step_id.to_owned(),
                passed: true,
                message: table[i].1.to_owned(),
                execution_time_ms: table[i].2,
                warnings: Vec::new(),
                completed_at: now,
            };
            proof {
                assert(tv[i as int].0 == step_id@);
            }
            return Some(r);
        }
        i = i + 1;
    }
    None
}

} // verus!
