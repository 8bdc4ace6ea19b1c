//! Production deployment: its settings, the components it sets up from
//! them, and the status it reports over its life.

use vstd::prelude::*;
use std::time::Duration;
use crate::env::{env_bool, env_flag, env_number, env_u64, env_view};
use crate::health::HealthStatus;
use crate::monitoring::MonitoringConfig;
use crate::shutdown::{GracefulShutdown, ShutdownConfig, ShutdownSignal, ShutdownState};
use crate::startup::{StartupConfig, StartupResult, StartupValidator};
use crate::text::{copy_names, string_views};
use crate::time::{duration_as_secs, duration_from_secs, nanos_of};

verus! {

/// Settings of the production features.
#[derive(Debug, Clone)]
pub struct ProductionConfig {
    pub health_check_interval: Duration,
    pub health_check_timeout: Duration,
    pub health_check_enabled: bool,
    pub monitoring_enabled: bool,
    pub metrics_collection_interval: Duration,
    pub performance_alerts_enabled: bool,
    pub graceful_shutdown_timeout: Duration,
    pub shutdown_signal_handlers: bool,
    pub startup_validation_enabled: bool,
    pub startup_timeout: Duration,
    pub dependency_check_enabled: bool,
}

/// A number of seconds read from `env`, as nanoseconds.
pub open spec fn env_seconds(env: Seq<(Seq<char>, Seq<char>)>, key: Seq<char>, default: nat) -> nat {
    env_number(env, key, u64::MAX as nat, default) * 1_000_000_000
}

/// The production settings read from `env`.
pub open spec fn production_config_from(env: Seq<(Seq<char>, Seq<char>)>, c: ProductionConfig) -> bool {
    &&& nanos_of(c.health_check_interval) == env_seconds(env, "HEALTH_CHECK_INTERVAL"@, 30)
    &&& nanos_of(c.health_check_timeout) == env_seconds(env, "HEALTH_CHECK_TIMEOUT"@, 5)
    &&& c.health_check_enabled == env_flag(env, "HEALTH_CHECK_ENABLED"@, true)
    &&& c.monitoring_enabled == env_flag(env, "MONITORING_ENABLED"@, true)
    &&& nanos_of(c.metrics_collection_interval) == env_seconds(env, "METRICS_COLLECTION_INTERVAL"@, 10)
    &&& c.performance_alerts_enabled == env_flag(env, "PERFORMANCE_ALERTS_ENABLED"@, false)
    &&& nanos_of(c.graceful_shutdown_timeout) == env_seconds(env, "GRACEFUL_SHUTDOWN_TIMEOUT"@, 30)
    &&& c.shutdown_signal_handlers == env_flag(env, "SHUTDOWN_SIGNAL_HANDLERS"@, true)
    &&& c.startup_validation_enabled == env_flag(env, "STARTUP_VALIDATION_ENABLED"@, true)
    &&& nanos_of(c.startup_timeout) == env_seconds(env, "STARTUP_TIMEOUT"@, 60)
    &&& c.dependency_check_enabled == env_flag(env, "DEPENDENCY_CHECK_ENABLED"@, true)
}

impl ProductionConfig {
    /// The settings from the given environment variables.
    pub fn from_env(env: &Vec<(String, String)>) -> (c: Self)
        ensures
            production_config_from(env_view(env@), c),
    {
        ProductionConfig {
            health_check_interval: duration_from_secs(env_u64(env, "HEALTH_CHECK_INTERVAL", u64::MAX, 30)),
            health_check_timeout: duration_from_secs(env_u64(env, "HEALTH_CHECK_TIMEOUT", u64::MAX, 5)),
            health_check_enabled: env_bool(env, "HEALTH_CHECK_ENABLED", true),
            monitoring_enabled: env_bool(env, "MONITORING_ENABLED", true),
            metrics_collection_interval: duration_from_secs(
                env_u64(env, "METRICS_COLLECTION_INTERVAL", u64::MAX, 10),
            ),
            performance_alerts_enabled: env_bool(env, "PERFORMANCE_ALERTS_ENABLED", false),
            graceful_shutdown_timeout: duration_from_secs(
                env_u64(env, "GRACEFUL_SHUTDOWN_TIMEOUT", u64::MAX, 30),
            ),
            shutdown_signal_handlers: env_bool(env, "SHUTDOWN_SIGNAL_HANDLERS", true),
            startup_validation_enabled: env_bool(env, "STARTUP_VALIDATION_ENABLED", true),
            startup_timeout: duration_from_secs(env_u64(env, "STARTUP_TIMEOUT", u64::MAX, 60)),
            dependency_check_enabled: env_bool(env, "DEPENDENCY_CHECK_ENABLED", true),
        }
    }
}

impl Default for ProductionConfig {
    /// The settings with no variable set.
    fn default() -> (c: Self)
        ensures
            production_config_from(Seq::empty(), c),
    {
        let env: Vec<(String, String)> = Vec::new();
        assert(env_view(env@) =~= Seq::empty());
        ProductionConfig::from_env(&env)
    }
}

/// The status of the deployment as a whole.
#[derive(Debug, Clone, Copy, PartialEq, Eq, Structural)]
pub enum DeploymentStatus {
    Starting,
    Healthy,
    Degraded,
    Unhealthy,
    ShuttingDown,
    Stopped,
}

/// How serious an alert is.
#[derive(Debug, Clone, Copy, PartialEq, Eq, Structural)]
pub enum AlertSeverity {
    Info,
    Warning,
    Critical,
}

/// The startup settings a deployment with `config` validates with.
pub open spec fn startup_settings(config: ProductionConfig, s: StartupConfig) -> bool {
    &&& s.startup_timeout_seconds == nanos_of(config.startup_timeout) / 1_000_000_000
    &&& s.continue_on_warnings
    &&& s.enable_parallel_validation
    &&& s.retry_attempts == 3
    &&& s.retry_delay_seconds == 5
    &&& !s.save_startup_results
    &&& s.results_file_path@ == "startup_results.json"@
}

/// The shutdown settings a deployment with `config` shuts down with.
pub open spec fn shutdown_settings(config: ProductionConfig, s: ShutdownConfig) -> bool {
    &&& s.grace_period_seconds == nanos_of(config.graceful_shutdown_timeout) / 1_000_000_000
    &&& s.service_timeout_seconds == 30
    &&& !s.save_state_on_shutdown
    &&& s.cleanup_timeout_seconds == 10
    &&& s.enable_signal_handling
    &&& s.shutdown_order@.len() == 0
}

/// The status after a health round reported `health`: a healthy round does
/// not end a shutdown in progress.
pub open spec fn status_after_health(current: DeploymentStatus, health: HealthStatus) -> DeploymentStatus {
    match health {
        HealthStatus::Healthy => if current == DeploymentStatus::ShuttingDown {
            current
        } else {
            DeploymentStatus::Healthy
        },
        HealthStatus::Degraded => DeploymentStatus::Degraded,
        HealthStatus::Unhealthy => DeploymentStatus::Unhealthy,
    }
}

/// A production deployment: the components its settings enable, and its status.
pub struct ProductionDeployment {
    config: ProductionConfig,
    startup_validator: Option<StartupValidator>,
    health_checker: bool,
    monitoring: bool,
    shutdown_handler: Option<GracefulShutdown>,
    status: DeploymentStatus,
}

impl ProductionDeployment {
    /// Its settings.
    pub closed spec fn config_spec(&self) -> ProductionConfig {
        self.config
    }

    /// Its status.
    pub closed spec fn status_spec(&self) -> DeploymentStatus {
        self.status
    }

    /// Whether a health checker is set up.
    pub closed spec fn has_health_checker(&self) -> bool {
        self.health_checker
    }

    /// Whether a startup validator is set up.
    pub closed spec fn has_startup_validator(&self) -> bool {
        self.startup_validator is Some
    }

    /// Whether a shutdown handler is set up.
    pub closed spec fn has_shutdown_handler(&self) -> bool {
        self.shutdown_handler is Some
    }

    /// Whether monitoring is set up.
    pub closed spec fn has_monitoring(&self) -> bool {
        self.monitoring
    }

    /// A deployment that is starting, with no component set up yet.
    pub fn new(config: ProductionConfig) -> (d: Self)
        ensures
            d.config_spec() == config,
            d.status_spec() == DeploymentStatus::Starting,
            !d.has_health_checker(),
            !d.has_startup_validator(),
            !d.has_shutdown_handler(),
            !d.has_monitoring(),
    {
        ProductionDeployment {
            config,
            startup_validator: None,
            health_checker: false,
            monitoring: false,
            shutdown_handler: None,
            status: DeploymentStatus::Starting,
        }
    }

    /// Its status.
    pub fn status(&self) -> (s: &DeploymentStatus)
        ensures
            *s == self.status_spec(),
    {
        &self.status
    }

    /// The startup settings for this deployment.
    pub fn startup_config(&self) -> (s: StartupConfig)
        ensures
            startup_settings(self.config_spec(), s),
    {
        StartupConfig {
            startup_timeout_seconds: duration_as_secs(&self.config.startup_timeout),
            continue_on_warnings: true,
            enable_parallel_validation: true,
            retry_attempts: 3,
            retry_delay_seconds: 5,
            save_startup_results: false,
            results_file_path: "startup_results.json".to_owned(),
        }
    }

    /// The shutdown settings for this deployment.
    pub fn shutdown_config(&self) -> (s: ShutdownConfig)
        ensures
            shutdown_settings(self.config_spec(), s),
    {
        ShutdownConfig {
            grace_period_seconds: duration_as_secs(&self.config.graceful_shutdown_timeout),
            service_timeout_seconds: 30,
            save_state_on_shutdown: false,
            cleanup_timeout_seconds: 10,
            enable_signal_handling: true,
            shutdown_order: Vec::new(),
        }
    }

    /// Sets up the components that the settings enable: startup validation,
    /// health checking, monitoring and shutdown handling.
    pub fn initialize(&mut self) -> (r: Result<(), ()>)
        ensures
            r is Ok,
            final(self).config_spec() == old(self).config_spec(),
            final(self).status_spec() == old(self).status_spec(),
            final(self).has_startup_validator() == old(self).config_spec().startup_validation_enabled
                || old(self).has_startup_validator(),
            final(self).has_health_checker() == old(self).config_spec().health_check_enabled
                || old(self).has_health_checker(),
            final(self).has_monitoring() == old(self).config_spec().monitoring_enabled || old(self).has_monitoring(),
            final(self).has_shutdown_handler() == old(self).config_spec().shutdown_signal_handlers
                || old(self).has_shutdown_handler(),
    {
        if self.config.startup_validation_enabled {
            let settings = self.startup_config();
            self.startup_validator = Some(StartupValidator::new(settings));
        }
        if self.config.health_check_enabled {
            self.health_checker = true;
        }
        if self.config.monitoring_enabled {
            self.monitoring = true;
        }
        if self.config.shutdown_signal_handlers {
            let settings = self.shutdown_config();
            self.shutdown_handler = Some(GracefulShutdown::new(settings));
        }
        Ok(())
    }

    /// The interval and timeout of health checking, when it is set up.
    pub fn health_checking(&self) -> (r: Option<(Duration, Duration)>)
        ensures
            r is Some == self.has_health_checker(),
            r matches Some(p) ==> p.0 == self.config_spec().health_check_interval && p.1
                == self.config_spec().health_check_timeout,
    {
        if self.health_checker {
            Some((self.config.health_check_interval, self.config.health_check_timeout))
        } else {
            None
        }
    }

    /// The settings the monitor runs with, when monitoring is set up: the
    /// metrics collection interval in whole seconds, no detailed logging, no
    /// profiling and no export endpoints.
    pub fn monitoring_config(&self) -> (r: Option<MonitoringConfig>)
        ensures
            r is Some == self.has_monitoring(),
            r matches Some(c) ==> {
                &&& c.collection_interval_seconds == nanos_of(self.config_spec().metrics_collection_interval) / 1_000_000_000
                &&& !c.enable_detailed_logging
                &&& !c.enable_profiling
                &&& c.export_endpoints@.len() == 0
            },
    {
        if self.monitoring {
            Some(MonitoringConfig {
                collection_interval_seconds: duration_as_secs(&self.config.metrics_collection_interval),
                enable_detailed_logging: false,
                enable_profiling: false,
                export_endpoints: Vec::new(),
            })
        } else {
            None
        }
    }

    /// Finishes starting once startup validation has given `validation`
    /// (`None` when no validator is set up): a failed validation stops the
    /// start with its critical failures; otherwise the deployment is healthy.
    pub fn complete_start(&mut self, validation: Option<&StartupResult>) -> (r: Result<(), Vec<String>>)
        ensures
            (validation matches Some(v) && !v.success) ==> (r matches Err(f) && string_views(f@)
                == string_views(validation->0.critical_failures@) && final(self).status_spec() == old(
                self,
            ).status_spec()),
            !(validation matches Some(v) && !v.success) ==> (r is Ok && final(self).status_spec()
                == DeploymentStatus::Healthy),
            final(self).config_spec() == old(self).config_spec(),
    {
        if let Some(v) = validation {
            if !v.success {
                return Err(copy_names(&v.critical_failures));
            }
        }
        self.status = DeploymentStatus::Healthy;
        Ok(())
    }

    /// Takes in the latest overall health, when a health checker is set up,
    /// and returns the resulting status.
    pub fn check_status(&mut self, latest: HealthStatus) -> (s: DeploymentStatus)
        ensures
            s == final(self).status_spec(),
            final(self).status_spec() == if old(self).has_health_checker() {
                status_after_health(old(self).status_spec(), latest)
            } else {
                old(self).status_spec()
            },
            final(self).config_spec() == old(self).config_spec(),
    {
        if self.health_checker {
            match latest {
                HealthStatus::Healthy => {
                    if self.status != DeploymentStatus::ShuttingDown {
                        self.status = DeploymentStatus::Healthy;
                    }
                },
                HealthStatus::Degraded => {
                    self.status = DeploymentStatus::Degraded;
                },
                HealthStatus::Unhealthy => {
                    self.status = DeploymentStatus::Unhealthy;
                },
            }
        }
        self.status
    }

    /// Starts shutting down at time `now`: the status becomes shutting down
    /// and the shutdown handler, if any, starts a graceful shutdown.
    pub fn begin_shutdown(&mut self, now: u64) -> (started: bool)
        ensures
            final(self).status_spec() == DeploymentStatus::ShuttingDown,
            started == old(self).has_shutdown_handler(),
            final(self).config_spec() == old(self).config_spec(),
    {
        self.status = DeploymentStatus::ShuttingDown;
        match &mut self.shutdown_handler {
            Some(h) => {
                h.start_shutdown_at(ShutdownSignal::Graceful, now);
                true
            },
            None => false,
        }
    }

    /// The shutdown handler's progress, when one is set up.
    pub fn shutdown_state(&self) -> (s: Option<&ShutdownState>)
        ensures
            s is Some == self.has_shutdown_handler(),
    {
        match &self.shutdown_handler {
            Some(h) => Some(h.get_state()),
            None => None,
        }
    }

    /// Records that shutdown has finished: the deployment is stopped.
    pub fn finish_shutdown(&mut self)
        ensures
            final(self).status_spec() == DeploymentStatus::Stopped,
            final(self).config_spec() == old(self).config_spec(),
    {
        self.status = DeploymentStatus::Stopped;
    }
}

/// A deployment in the middle of shutting down stays so when a health round
/// comes back healthy; a degraded or unhealthy round is reported whatever
/// the status.
pub proof fn law_healthy_round_keeps_shutdown(health: HealthStatus)
    ensures
        health == HealthStatus::Healthy ==> status_after_health(DeploymentStatus::ShuttingDown, health)
            == DeploymentStatus::ShuttingDown,
        health == HealthStatus::Degraded ==> forall|s: DeploymentStatus| #[trigger] status_after_health(s, health)
            == DeploymentStatus::Degraded,
        health == HealthStatus::Unhealthy ==> forall|s: DeploymentStatus| #[trigger] status_after_health(s, health)
            == DeploymentStatus::Unhealthy,
{
}

} // verus!
