//! The monitoring settings read from the environment.

use vstd::prelude::*;
use crate::env::{env_bool, env_flag, env_lookup, env_number, env_u64, env_view, lookup};
use crate::text::{split_and_trim, split_trimmed, string_views};

verus! {

/// How the monitor runs: how often it collects, whether it logs in detail or
/// profiles, and where it exports. The alert thresholds are fractional
/// numbers and are kept by the monitor itself.
#[derive(Debug, Clone)]
pub struct MonitoringConfig {
    pub collection_interval_seconds: u64,
    pub enable_detailed_logging: bool,
    pub enable_profiling: bool,
    pub export_endpoints: Vec<String>,
}

/// The export endpoints named in `env`: the comma-separated entries of
/// `MONITORING_EXPORT_ENDPOINTS`, each trimmed; none when it is not set.
pub open spec fn export_endpoints_from(env: Seq<(Seq<char>, Seq<char>)>) -> Seq<Seq<char>> {
    match lookup(env, "MONITORING_EXPORT_ENDPOINTS"@) {
        Some(v) => split_trimmed(v, ','),
        None => Seq::empty(),
    }
}

/// The monitoring settings read from `env`.
pub open spec fn monitoring_config_from(env: Seq<(Seq<char>, Seq<char>)>, c: MonitoringConfig) -> bool {
    &&& c.collection_interval_seconds == env_number(env, "MONITORING_COLLECTION_INTERVAL"@, u64::MAX as nat, 30)
    &&& c.enable_detailed_logging == env_flag(env, "MONITORING_DETAILED_LOGGING"@, false)
    &&& c.enable_profiling == env_flag(env, "MONITORING_ENABLE_PROFILING"@, false)
    &&& string_views(c.export_endpoints@) == export_endpoints_from(env)
}

impl MonitoringConfig {
    /// The settings from the given environment variables.
    pub fn from_env(env: &Vec<(String, String)>) -> (c: Self)
        ensures
            monitoring_config_from(env_view(env@), c),
    {
        let export_endpoints: Vec<String> = match env_lookup(env, "MONITORING_EXPORT_ENDPOINTS") {
            Some(v) => split_and_trim(v.as_str(), ','),
            None => {
                let none: Vec<String> = Vec::new();
                assert(string_views(none@) =~= Seq::empty());
                none
            },
        };
        MonitoringConfig {
            collection_interval_seconds: env_u64(env, "MONITORING_COLLECTION_INTERVAL", u64::MAX, 30),
            enable_detailed_logging: env_bool(env, "MONITORING_DETAILED_LOGGING", false),
            enable_profiling: env_bool(env, "MONITORING_ENABLE_PROFILING", false),
            export_endpoints,
        }
    }
}

impl Default for MonitoringConfig {
    /// The settings with no variable set: collection every 30 seconds, no
    /// detailed logging, no profiling, no export endpoints.
    fn default() -> (c: Self)
        ensures
            monitoring_config_from(Seq::empty(), c),
            c.collection_interval_seconds == 30,
            !c.enable_detailed_logging,
            !c.enable_profiling,
            c.export_endpoints@.len() == 0,
    {
        let env: Vec<(String, String)> = Vec::new();
        assert(env_view(env@) =~= Seq::empty());
        let c = MonitoringConfig::from_env(&env);
        assert(string_views(c.export_endpoints@).len() == c.export_endpoints@.len());
        c
    }
}

} // verus!
