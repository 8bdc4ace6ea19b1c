//! Graceful shutdown: the phases a shutdown goes through, the signal that
//! starts it, and the record of which services have stopped.

use vstd::prelude::*;
use crate::env::{env_bool, env_flag, env_lookup, env_number, env_u64, env_view, lookup};
use crate::text::{copy_names, split_and_trim, split_trimmed, str_eq, string_views};
use crate::time::unix_timestamp;

verus! {

/// Where a shutdown stands.
#[derive(Debug, Clone, Copy, PartialEq, Eq, Structural)]
pub enum ShutdownPhase {
    Running,
    Graceful,
    Draining,
    Stopping,
    Cleanup,
    Complete,
    Forced,
}

/// What kind of shutdown was asked for.
#[derive(Debug, Clone, Copy, PartialEq, Eq, Structural)]
pub enum ShutdownSignal {
    Graceful,
    Immediate,
    Force,
    Restart,
}

/// The progress of a shutdown.
#[derive(Debug, Clone)]
pub struct ShutdownState {
    pub shutdown_initiated: bool,
    pub current_phase: ShutdownPhase,
    pub completed_services: Vec<String>,
    pub pending_services: Vec<String>,
    pub shutdown_started_at: Option<u64>,
    pub forced_shutdown: bool,
}

/// How a shutdown is carried out.
#[derive(Debug, Clone)]
pub struct ShutdownConfig {
    pub grace_period_seconds: u64,
    pub service_timeout_seconds: u64,
    pub save_state_on_shutdown: bool,
    pub cleanup_timeout_seconds: u64,
    pub enable_signal_handling: bool,
    pub shutdown_order: Vec<String>,
}

/// The services stopped when no order is configured, first to last.
pub open spec fn default_shutdown_order() -> Seq<Seq<char>> {
    seq!["http_server"@, "search_service"@, "vector_store"@, "embedding_service"@]
}

/// The shutdown settings read from `env`; `SHUTDOWN_ORDER` is a comma-separated
/// list whose entries are trimmed.
pub open spec fn shutdown_config_from(env: Seq<(Seq<char>, Seq<char>)>, c: ShutdownConfig) -> bool {
    &&& c.grace_period_seconds == env_number(env, "SHUTDOWN_GRACE_PERIOD"@, u64::MAX as nat, 30)
    &&& c.service_timeout_seconds == env_number(env, "SHUTDOWN_SERVICE_TIMEOUT"@, u64::MAX as nat, 10)
    &&& c.save_state_on_shutdown == env_flag(env, "SHUTDOWN_SAVE_STATE"@, true)
    &&& c.cleanup_timeout_seconds == env_number(env, "SHUTDOWN_CLEANUP_TIMEOUT"@, u64::MAX as nat, 15)
    &&& c.enable_signal_handling == env_flag(env, "SHUTDOWN_ENABLE_SIGNAL_HANDLING"@, true)
    &&& string_views(c.shutdown_order@) == match lookup(env, "SHUTDOWN_ORDER"@) {
        Some(v) => split_trimmed(v, ','),
        None => default_shutdown_order(),
    }
}

impl ShutdownConfig {
    /// The settings from the given environment variables.
    pub fn from_env(env: &Vec<(String, String)>) -> (c: Self)
        ensures
            shutdown_config_from(env_view(env@), c),
    {
        let shutdown_order = match env_lookup(env, "SHUTDOWN_ORDER") {
            Some(v) => split_and_trim(v.as_str(), ','),
            None => {
                let order = vec![
                    "http_server".to_owned(),
                    "search_service".to_owned(),
                    "vector_store".to_owned(),
                    "embedding_service".to_owned(),
                ];
                assert(string_views(order@) =~= default_shutdown_order());
                order
            },
        };
        ShutdownConfig {
            grace_period_seconds: env_u64(env, "SHUTDOWN_GRACE_PERIOD", u64::MAX, 30),
            service_timeout_seconds: env_u64(env, "SHUTDOWN_SERVICE_TIMEOUT", u64::MAX, 10),
            save_state_on_shutdown: env_bool(env, "SHUTDOWN_SAVE_STATE", true),
            cleanup_timeout_seconds: env_u64(env, "SHUTDOWN_CLEANUP_TIMEOUT", u64::MAX, 15),
            enable_signal_handling: env_bool(env, "SHUTDOWN_ENABLE_SIGNAL_HANDLING", true),
            shutdown_order,
        }
    }
}

impl Default for ShutdownConfig {
    /// The settings with no variable set.
    fn default() -> (c: Self)
        ensures
            shutdown_config_from(Seq::empty(), c),
    {
        let env: Vec<(String, String)> = Vec::new();
        assert(env_view(env@) =~= Seq::empty());
        ShutdownConfig::from_env(&env)
    }
}

/// `names` without the entries equal to `name`, order kept.
pub open spec fn without_name(names: Seq<Seq<char>>, name: Seq<char>) -> Seq<Seq<char>>
    decreases names.len(),
{
    if names.len() == 0 {
        names
    } else {
        let rest = without_name(names.drop_last(), name);
        if names.last() == name {
            rest
        } else {
            rest.push(names.last())
        }
    }
}

/// `names` without the entries equal to any of `gone`.
pub open spec fn without_names(names: Seq<Seq<char>>, gone: Seq<Seq<char>>) -> Seq<Seq<char>>
    decreases gone.len(),
{
    if gone.len() == 0 {
        names
    } else {
        without_name(without_names(names, gone.drop_last()), gone.last())
    }
}

/// A sequence with one more entry contains what the shorter one does and the new entry.
pub proof fn lemma_push_contains(s: Seq<Seq<char>>, e: Seq<char>, x: Seq<char>)
    ensures
        s.push(e).contains(x) <==> (s.contains(x) || e == x),
{
    let t = s.push(e);
    if t.contains(x) {
        let k = choose|k: int| 0 <= k < t.len() && t[k] == x;
        if k < s.len() {
            assert(s[k] == x);
        }
    }
    if s.contains(x) {
        let k = choose|k: int| 0 <= k < s.len() && s[k] == x;
        assert(t[k] == x);
    }
    if e == x {
        assert(t[s.len() as int] == x);
    }
}

/// An entry is left by `without_name` exactly when it was there and is not `name`.
pub proof fn lemma_without_name_contains(names: Seq<Seq<char>>, name: Seq<char>, x: Seq<char>)
    ensures
        without_name(names, name).contains(x) <==> (names.contains(x) && x != name),
    decreases names.len(),
{
    if names.len() > 0 {
        let init = names.drop_last();
        let last = names.last();
        lemma_without_name_contains(init, name, x);
        assert(names =~= init.push(last));
        lemma_push_contains(init, last, x);
        let rest = without_name(init, name);
        if last != name {
            lemma_push_contains(rest, last, x);
        }
    }
}

/// An entry is left by `without_names` exactly when it was there and is none of `gone`.
pub proof fn lemma_without_names_contains(names: Seq<Seq<char>>, gone: Seq<Seq<char>>, x: Seq<char>)
    ensures
        without_names(names, gone).contains(x) <==> (names.contains(x) && !gone.contains(x)),
    decreases gone.len(),
{
    if gone.len() > 0 {
        let init = gone.drop_last();
        lemma_without_names_contains(names, init, x);
        lemma_without_name_contains(without_names(names, init), gone.last(), x);
        assert(gone =~= init.push(gone.last()));
        lemma_push_contains(init, gone.last(), x);
    }
}

/// The state before any shutdown: nothing stopped, every configured service pending.
pub open spec fn initial_state(s: ShutdownState, order: Seq<Seq<char>>) -> bool {
    &&& !s.shutdown_initiated
    &&& s.current_phase == ShutdownPhase::Running
    &&& s.completed_services@.len() == 0
    &&& string_views(s.pending_services@) == order
    &&& s.shutdown_started_at is None
    &&& !s.forced_shutdown
}

/// The phase a shutdown enters when `signal` starts it.
pub open spec fn first_phase(signal: ShutdownSignal) -> ShutdownPhase {
    match signal {
        ShutdownSignal::Force => ShutdownPhase::Forced,
        _ => ShutdownPhase::Graceful,
    }
}

/// The state after `signal` starts a shutdown at `now` from state `s`.
pub open spec fn started_state(s: ShutdownState, signal: ShutdownSignal, now: u64) -> ShutdownState {
    ShutdownState {
        shutdown_initiated: true,
        current_phase: first_phase(signal),
        shutdown_started_at: Some(now),
        ..s
    }
}

/// `after` has every service of `order` stopped, on top of state `s`: they
/// join the completed services in order and leave the pending ones.
pub open spec fn stopped_all(s: ShutdownState, order: Seq<Seq<char>>, after: ShutdownState) -> bool {
    &&& string_views(after.completed_services@) == string_views(s.completed_services@) + order
    &&& string_views(after.pending_services@) == without_names(string_views(s.pending_services@), order)
}

/// What a shutdown asked for by `signal` at `now` does to state `s`, with
/// `order` the configured services and `drained` whether draining finished
/// in time, giving state `after` and answer `r`: nothing when a shutdown is
/// already under way; a forced one is marked forced and complete; an
/// immediate one, or any other that drained in time, stops every service and
/// completes; any other that did not drain in time stops while draining,
/// with an error.
pub open spec fn shutdown_outcome(
    s: ShutdownState,
    order: Seq<Seq<char>>,
    signal: ShutdownSignal,
    now: u64,
    drained: bool,
    after: ShutdownState,
    r: Result<(), String>,
) -> bool {
    if s.shutdown_initiated {
        after == s && r is Ok
    } else if signal == ShutdownSignal::Force {
        &&& after == (ShutdownState {
            current_phase: ShutdownPhase::Complete,
            forced_shutdown: true,
            ..started_state(s, signal, now)
        })
        &&& r is Ok
    } else if signal == ShutdownSignal::Immediate || drained {
        &&& after.shutdown_initiated
        &&& after.current_phase == ShutdownPhase::Complete
        &&& after.shutdown_started_at == Some(now)
        &&& after.forced_shutdown == s.forced_shutdown
        &&& stopped_all(s, order, after)
        &&& r is Ok
    } else {
        &&& after == (ShutdownState { current_phase: ShutdownPhase::Draining, ..started_state(s, signal, now) })
        &&& r matches Err(e) && e@ == "Timeout while draining connections"@
    }
}

/// The phases a shutdown started by `signal` goes through after its first
/// one, in order.
pub open spec fn phase_plan(signal: ShutdownSignal) -> Seq<ShutdownPhase> {
    match signal {
        ShutdownSignal::Force => seq![ShutdownPhase::Forced, ShutdownPhase::Complete],
        ShutdownSignal::Immediate => seq![ShutdownPhase::Stopping, ShutdownPhase::Complete],
        _ => seq![ShutdownPhase::Draining, ShutdownPhase::Stopping, ShutdownPhase::Cleanup, ShutdownPhase::Complete],
    }
}

/// Coordinates a shutdown: which phase it is in and which services have stopped.
pub struct GracefulShutdown {
    state: ShutdownState,
    config: ShutdownConfig,
}

impl GracefulShutdown {
    /// The shutdown's progress.
    pub closed spec fn state_spec(&self) -> ShutdownState {
        self.state
    }

    /// The settings it runs with.
    pub closed spec fn config_spec(&self) -> ShutdownConfig {
        self.config
    }

    /// A coordinator that has not started shutting down.
    pub fn new(config: ShutdownConfig) -> (g: Self)
        ensures
            initial_state(g.state_spec(), string_views(config.shutdown_order@)),
            g.config_spec() == config,
    {
        let pending = copy_names(&config.shutdown_order);
        GracefulShutdown {
            state: ShutdownState {
                shutdown_initiated: false,
                current_phase: ShutdownPhase::Running,
                completed_services: Vec::new(),
                pending_services: pending,
                shutdown_started_at: None,
                forced_shutdown: false,
            },
            config,
        }
    }

    /// The shutdown's progress.
    pub fn get_state(&self) -> (s: &ShutdownState)
        ensures
            *s == self.state_spec(),
    {
        &self.state
    }

    /// The settings it runs with.
    pub fn config(&self) -> (c: &ShutdownConfig)
        ensures
            *c == self.config_spec(),
    {
        &self.config
    }

    /// Takes the first step of a shutdown at time `now`: marks it started, in
    /// its first phase; a second request changes nothing. Returns whether
    /// this call started it.
    pub fn start_shutdown_at(&mut self, signal: ShutdownSignal, now: u64) -> (started: bool)
        ensures
            started == !old(self).state_spec().shutdown_initiated,
            !started ==> *final(self) == *old(self),
            started ==> final(self).state_spec() == started_state(old(self).state_spec(), signal, now),
            final(self).config_spec() == old(self).config_spec(),
    {
        if self.state.shutdown_initiated {
            return false;
        }
        self.state.shutdown_initiated = true;
        self.state.current_phase = match signal {
            ShutdownSignal::Force => ShutdownPhase::Forced,
            _ => ShutdownPhase::Graceful,
        };
        self.state.shutdown_started_at = Some(now);
        true
    }

    /// Carries out a shutdown started at time `now` by `signal`, through to
    /// its end: a forced one completes at once, marked forced; an immediate
    /// one stops every configured service and completes; any other drains
    /// first, and then stops the services, cleans up and completes, unless
    /// draining timed out (`drained` false), where it stops with an error.
    /// A shutdown already under way is left as it is.
    pub fn initiate_shutdown_at(&mut self, signal: ShutdownSignal, now: u64, drained: bool) -> (r: Result<(), String>)
        ensures
            shutdown_outcome(
                old(self).state_spec(),
                string_views(old(self).config_spec().shutdown_order@),
                signal,
                now,
                drained,
                final(self).state_spec(),
                r,
            ),
            final(self).config_spec() == old(self).config_spec(),
    {
        if !self.start_shutdown_at(signal, now) {
            return Ok(());
        }
        match signal {
            ShutdownSignal::Force => {
                self.force_shutdown();
                Ok(())
            },
            ShutdownSignal::Immediate => {
                self.immediate_shutdown();
                Ok(())
            },
            _ => {
                self.update_phase(ShutdownPhase::Draining);
                if !drained {
                    return Err("Timeout while draining connections".to_owned());
                }
                self.update_phase(ShutdownPhase::Stopping);
                self.stop_services();
                self.update_phase(ShutdownPhase::Cleanup);
                self.update_phase(ShutdownPhase::Complete);
                Ok(())
            },
        }
    }

    /// Carries out a shutdown started now by `signal`, as
    /// `initiate_shutdown_at` does with the current time.
    pub fn initiate_shutdown(&mut self, signal: ShutdownSignal, drained: bool) -> (r: Result<(), String>)
        ensures
            exists|now: u64|
                #[trigger] shutdown_outcome(
                    old(self).state_spec(),
                    string_views(old(self).config_spec().shutdown_order@),
                    signal,
                    now,
                    drained,
                    final(self).state_spec(),
                    r,
                ),
            final(self).config_spec() == old(self).config_spec(),
    {
        let now: i64 = unix_timestamp();
        let r = self.initiate_shutdown_at(signal, now as u64, drained);
        assert(shutdown_outcome(
            old(self).state_spec(),
            string_views(old(self).config_spec().shutdown_order@),
            signal,
            now as u64,
            drained,
            self.state_spec(),
            r,
        ));
        r
    }

    /// The phases the shutdown started by `signal` passes through, in order.
    pub fn shutdown_plan(signal: ShutdownSignal) -> (plan: Vec<ShutdownPhase>)
        ensures
            plan@ == phase_plan(signal),
    {
        match signal {
            ShutdownSignal::Force => vec![ShutdownPhase::Forced, ShutdownPhase::Complete],
            ShutdownSignal::Immediate => vec![ShutdownPhase::Stopping, ShutdownPhase::Complete],
            _ => vec![
                ShutdownPhase::Draining,
                ShutdownPhase::Stopping,
                ShutdownPhase::Cleanup,
                ShutdownPhase::Complete,
            ],
        }
    }

    /// Moves the shutdown to `phase`.
    pub fn update_phase(&mut self, phase: ShutdownPhase)
        ensures
            final(self).state_spec() == (ShutdownState { current_phase: phase, ..old(self).state_spec() }),
            final(self).config_spec() == old(self).config_spec(),
    {
        self.state.current_phase = phase;
    }

    /// Records that `name` has stopped: it joins the completed services and
    /// leaves the pending ones.
    pub fn mark_service_completed(&mut self, name: &str)
        ensures
            string_views(final(self).state_spec().completed_services@)
                == string_views(old(self).state_spec().completed_services@).push(name@),
            string_views(final(self).state_spec().pending_services@)
                == without_name(string_views(old(self).state_spec().pending_services@), name@),
            final(self).state_spec().shutdown_initiated == old(self).state_spec().shutdown_initiated,
            final(self).state_spec().current_phase == old(self).state_spec().current_phase,
            final(self).state_spec().shutdown_started_at == old(self).state_spec().shutdown_started_at,
            final(self).state_spec().forced_shutdown == old(self).state_spec().forced_shutdown,
            final(self).config_spec() == old(self).config_spec(),
    {
        let ghost before = self.state.completed_services@;
        self.state.completed_services.push(name.to_owned());
        assert(string_views(self.state.completed_services@) =~= string_views(before).push(name@));
        let kept = names_without(&self.state.pending_services, name);
        self.state.pending_services = kept;
    }

    /// Stops the configured services in order, each recorded as completed.
    pub fn stop_services(&mut self)
        ensures
            string_views(final(self).state_spec().completed_services@)
                == string_views(old(self).state_spec().completed_services@) + string_views(old(self).config_spec().shutdown_order@),
            string_views(final(self).state_spec().pending_services@)
                == without_names(string_views(old(self).state_spec().pending_services@), string_views(old(self).config_spec().shutdown_order@)),
            final(self).state_spec().current_phase == old(self).state_spec().current_phase,
            final(self).state_spec().shutdown_initiated == old(self).state_spec().shutdown_initiated,
            final(self).state_spec().shutdown_started_at == old(self).state_spec().shutdown_started_at,
            final(self).state_spec().forced_shutdown == old(self).state_spec().forced_shutdown,
            final(self).config_spec() == old(self).config_spec(),
    {
        let order = copy_names(&self.config.shutdown_order);
        let ghost names = string_views(order@);
        let ghost done0 = string_views(self.state.completed_services@);
        let ghost pending0 = string_views(self.state.pending_services@);
        let mut i: usize = 0;
        while i < order.len()
            invariant
                i <= order.len(),
                names == string_views(order@),
                names == string_views(self.config.shutdown_order@),
                self.config == old(self).config,
                string_views(self.state.completed_services@) == done0 + names.take(i as int),
                string_views(self.state.pending_services@) == without_names(pending0, names.take(i as int)),
                self.state.current_phase == old(self).state.current_phase,
                self.state.shutdown_initiated == old(self).state.shutdown_initiated,
                self.state.shutdown_started_at == old(self).state.shutdown_started_at,
                self.state.forced_shutdown == old(self).state.forced_shutdown,
            decreases order.len() - i,
        {
            self.mark_service_completed(order[i].as_str());
            let ghost now = names.take(i + 1);
            assert(now.drop_last() =~= names.take(i as int));
            assert(now.last() == order@[i as int]@);
            assert(done0 + now =~= (done0 + names.take(i as int)).push(order@[i as int]@));
            i = i + 1;
        }
        assert(names.take(order.len() as int) =~= names);
    }

    /// Runs a forced shutdown: marks it forced and complete at once.
    pub fn force_shutdown(&mut self)
        ensures
            final(self).state_spec() == (ShutdownState {
                forced_shutdown: true,
                current_phase: ShutdownPhase::Complete,
                ..old(self).state_spec()
            }),
            final(self).config_spec() == old(self).config_spec(),
    {
        self.state.forced_shutdown = true;
        self.state.current_phase = ShutdownPhase::Forced;
        self.state.current_phase = ShutdownPhase::Complete;
    }

    /// Runs an immediate shutdown: stops every service and completes.
    pub fn immediate_shutdown(&mut self)
        ensures
            final(self).state_spec().current_phase == ShutdownPhase::Complete,
            final(self).state_spec().shutdown_initiated == old(self).state_spec().shutdown_initiated,
            final(self).state_spec().shutdown_started_at == old(self).state_spec().shutdown_started_at,
            string_views(final(self).state_spec().completed_services@)
                == string_views(old(self).state_spec().completed_services@) + string_views(old(self).config_spec().shutdown_order@),
            string_views(final(self).state_spec().pending_services@)
                == without_names(string_views(old(self).state_spec().pending_services@), string_views(old(self).config_spec().shutdown_order@)),
            final(self).state_spec().forced_shutdown == old(self).state_spec().forced_shutdown,
            final(self).config_spec() == old(self).config_spec(),
    {
        self.update_phase(ShutdownPhase::Stopping);
        self.stop_services();
        self.update_phase(ShutdownPhase::Complete);
    }

    /// Whether the shutdown has completed.
    pub fn is_shutdown_complete(&self) -> (b: bool)
        ensures
            b == (self.state_spec().current_phase == ShutdownPhase::Complete),
    {
        match self.state.current_phase {
            ShutdownPhase::Complete => true,
            _ => false,
        }
    }
}

/// The names of `names` other than `name`, in order.
pub fn names_without(names: &Vec<String>, name: &str) -> (r: Vec<String>)
    ensures
        string_views(r@) == without_name(string_views(names@), name@),
{
    let mut r: Vec<String> = Vec::new();
    let mut i: usize = 0;
    while i < names.len()
        invariant
            i <= names.len(),
            string_views(r@) == without_name(string_views(names@).take(i as int), name@),
        decreases names.len() - i,
    {
        let ghost pre = string_views(names@).take(i as int);
        let ghost now = string_views(names@).take(i + 1);
        assert(now.drop_last() =~= pre);
        assert(now.last() == names@[i as int]@);
        if !str_eq(names[i].as_str(), name) {
            let ghost before = r@;
            r.push(names[i].as_str().to_owned());
            assert(string_views(r@) =~= string_views(before).push(names@[i as int]@));
        }
        i = i + 1;
    }
    assert(string_views(names@).take(names.len() as int) =~= string_views(names@));
    r
}

/// Stopping every configured service, starting from a fresh coordinator
/// (whose pending services are the configured order), leaves no service
/// pending.
pub proof fn law_stopping_leaves_nothing_pending(order: Seq<Seq<char>>)
    ensures
        without_names(order, order).len() == 0,
{
    let left = without_names(order, order);
    if left.len() > 0 {
        lemma_without_names_contains(order, order, left[0]);
        assert(left.contains(left[0]));
    }
}

} // verus!

verus! {

/// A shutdown asked of a coordinator that has not started one, other than a
/// forced one and one whose draining timed out, ends complete with every
/// configured service stopped, in order, and none pending.
pub proof fn law_shutdown_runs_to_completion(
    s: ShutdownState,
    order: Seq<Seq<char>>,
    signal: ShutdownSignal,
    now: u64,
    drained: bool,
    after: ShutdownState,
    r: Result<(), String>,
)
    requires
        initial_state(s, order),
        shutdown_outcome(s, order, signal, now, drained, after, r),
        signal != ShutdownSignal::Force,
        signal == ShutdownSignal::Immediate || drained,
    ensures
        r is Ok,
        after.shutdown_initiated,
        after.current_phase == ShutdownPhase::Complete,
        string_views(after.completed_services@) == order,
        after.pending_services@.len() == 0,
{
    assert(string_views(s.completed_services@) =~= Seq::<Seq<char>>::empty());
    assert(Seq::<Seq<char>>::empty() + order =~= order);
    law_stopping_leaves_nothing_pending(order);
    assert(string_views(after.pending_services@).len() == after.pending_services@.len());
}

} // verus!
