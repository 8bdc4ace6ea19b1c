use std::time::Duration;

use doc_indexer::health::{
    aggregate_health, latest_overall, timed_out_check, EmbeddingServiceHealthCheck, HealthCheckResult, HealthStatus,
    ProbeOutcome, VectorStoreHealthCheck,
};
use doc_indexer::monitoring::MonitoringConfig;
use doc_indexer::production::{DeploymentStatus, ProductionConfig, ProductionDeployment};
use doc_indexer::shutdown::{GracefulShutdown, ShutdownConfig, ShutdownPhase, ShutdownSignal};

fn names(v: &[&str]) -> Vec<String> {
    v.iter().map(|s| s.to_string()).collect()
}

#[test]
fn test_shutdown_initialization() {
    let config = ShutdownConfig::default();
    let shutdown = GracefulShutdown::new(config);
    let state = shutdown.get_state();
    assert!(!state.shutdown_initiated);
    assert!(matches!(state.current_phase, ShutdownPhase::Running));
}

#[test]
fn shutdown_defaults_and_order_from_environment() {
    let config = ShutdownConfig::default();
    assert_eq!(config.grace_period_seconds, 30);
    assert_eq!(config.service_timeout_seconds, 10);
    assert!(config.save_state_on_shutdown);
    assert_eq!(config.cleanup_timeout_seconds, 15);
    assert!(config.enable_signal_handling);
    assert_eq!(config.shutdown_order, names(&["http_server", "search_service", "vector_store", "embedding_service"]));

    let env = vec![
        ("SHUTDOWN_ORDER".to_string(), " api , cache,,store ".to_string()),
        ("SHUTDOWN_GRACE_PERIOD".to_string(), "5".to_string()),
        ("SHUTDOWN_SAVE_STATE".to_string(), "FALSE".to_string()),
    ];
    let config = ShutdownConfig::from_env(&env);
    assert_eq!(config.shutdown_order, names(&["api", "cache", "", "store"]));
    assert_eq!(config.grace_period_seconds, 5);
    assert!(!config.save_state_on_shutdown);
}

#[test]
fn shutdown_starts_once() {
    let mut s = GracefulShutdown::new(ShutdownConfig::default());
    assert!(s.start_shutdown_at(ShutdownSignal::Graceful, 100));
    assert_eq!(s.get_state().current_phase, ShutdownPhase::Graceful);
    assert_eq!(s.get_state().shutdown_started_at, Some(100));
    assert!(!s.start_shutdown_at(ShutdownSignal::Force, 200));
    assert_eq!(s.get_state().current_phase, ShutdownPhase::Graceful);
    assert_eq!(s.get_state().shutdown_started_at, Some(100));
}

#[test]
fn force_signal_enters_forced_phase() {
    let mut s = GracefulShutdown::new(ShutdownConfig::default());
    assert!(s.start_shutdown_at(ShutdownSignal::Force, 7));
    assert_eq!(s.get_state().current_phase, ShutdownPhase::Forced);
    s.force_shutdown();
    assert!(s.get_state().forced_shutdown);
    assert!(s.is_shutdown_complete());
}

#[test]
fn shutdown_plans() {
    assert_eq!(GracefulShutdown::shutdown_plan(ShutdownSignal::Force), vec![ShutdownPhase::Forced, ShutdownPhase::Complete]);
    assert_eq!(
        GracefulShutdown::shutdown_plan(ShutdownSignal::Immediate),
        vec![ShutdownPhase::Stopping, ShutdownPhase::Complete]
    );
    let graceful = vec![ShutdownPhase::Draining, ShutdownPhase::Stopping, ShutdownPhase::Cleanup, ShutdownPhase::Complete];
    assert_eq!(GracefulShutdown::shutdown_plan(ShutdownSignal::Graceful), graceful);
    assert_eq!(GracefulShutdown::shutdown_plan(ShutdownSignal::Restart), graceful);
}

#[test]
fn stopping_services_clears_pending() {
    let mut s = GracefulShutdown::new(ShutdownConfig::default());
    s.mark_service_completed("vector_store");
    assert_eq!(s.get_state().completed_services, names(&["vector_store"]));
    assert_eq!(s.get_state().pending_services, names(&["http_server", "search_service", "embedding_service"]));

    let mut s = GracefulShutdown::new(ShutdownConfig::default());
    s.immediate_shutdown();
    assert!(s.is_shutdown_complete());
    assert!(s.get_state().pending_services.is_empty());
    assert_eq!(
        s.get_state().completed_services,
        names(&["http_server", "search_service", "vector_store", "embedding_service"])
    );
}

#[test]
fn test_production_deployment_creation() {
    let config = ProductionConfig::default();
    let deployment = ProductionDeployment::new(config);
    assert!(matches!(deployment.status(), DeploymentStatus::Starting));
}

#[test]
fn test_production_deployment_initialization() {
    let config = ProductionConfig {
        health_check_enabled: false,
        monitoring_enabled: false,
        shutdown_signal_handlers: false,
        startup_validation_enabled: false,
        ..Default::default()
    };
    let mut deployment = ProductionDeployment::new(config);
    let result = deployment.initialize();
    assert!(result.is_ok());
}

#[test]
fn production_defaults() {
    let c = ProductionConfig::default();
    assert_eq!(c.health_check_interval, Duration::from_secs(30));
    assert_eq!(c.health_check_timeout, Duration::from_secs(5));
    assert_eq!(c.metrics_collection_interval, Duration::from_secs(10));
    assert_eq!(c.graceful_shutdown_timeout, Duration::from_secs(30));
    assert_eq!(c.startup_timeout, Duration::from_secs(60));
    assert!(c.health_check_enabled && c.monitoring_enabled && !c.performance_alerts_enabled);
}

#[test]
fn deployment_status_follows_health_but_not_during_shutdown() {
    let mut d = ProductionDeployment::new(ProductionConfig::default());
    assert_eq!(d.check_status(HealthStatus::Degraded), DeploymentStatus::Starting);
    d.initialize().unwrap();
    assert_eq!(d.health_checking(), Some((Duration::from_secs(30), Duration::from_secs(5))));
    let m = d.monitoring_config().unwrap();
    assert_eq!(m.collection_interval_seconds, 10);
    assert!(!m.enable_detailed_logging && !m.enable_profiling && m.export_endpoints.is_empty());
    assert_eq!(d.startup_config().retry_attempts, 3);
    assert_eq!(d.shutdown_config().grace_period_seconds, 30);
    assert!(d.complete_start(None).is_ok());
    assert_eq!(*d.status(), DeploymentStatus::Healthy);
    assert_eq!(d.check_status(HealthStatus::Degraded), DeploymentStatus::Degraded);
    assert!(d.begin_shutdown(1000));
    assert_eq!(d.check_status(HealthStatus::Healthy), DeploymentStatus::ShuttingDown);
    assert_eq!(d.shutdown_state().unwrap().current_phase, ShutdownPhase::Graceful);
    assert_eq!(d.check_status(HealthStatus::Unhealthy), DeploymentStatus::Unhealthy);
    d.finish_shutdown();
    assert_eq!(*d.status(), DeploymentStatus::Stopped);
}

fn check(name: &str, status: HealthStatus) -> HealthCheckResult {
    HealthCheckResult {
        name: name.to_string(),
        status,
        message: String::new(),
        duration: Duration::from_millis(1),
        timestamp: 0,
        details: Vec::new(),
    }
}

#[test]
fn aggregate_reports_worst_status() {
    let a = aggregate_health(vec![check("a", HealthStatus::Healthy), check("b", HealthStatus::Degraded)], 9);
    assert_eq!(a.overall_status, HealthStatus::Degraded);
    assert_eq!((a.healthy_count, a.degraded_count, a.unhealthy_count), (1, 1, 0));
    assert_eq!(a.summary, "Health: 2 checks (1✅ 1⚠️ 0❌)");
    assert_eq!(a.timestamp, 9);

    let a = aggregate_health(
        vec![check("a", HealthStatus::Degraded), check("b", HealthStatus::Unhealthy), check("c", HealthStatus::Healthy)],
        1,
    );
    assert_eq!(a.overall_status, HealthStatus::Unhealthy);
    assert_eq!(a.summary, "Health: 3 checks (1✅ 1⚠️ 1❌)");

    let a = aggregate_health(Vec::new(), 1);
    assert_eq!(a.overall_status, HealthStatus::Healthy);
    assert_eq!(a.summary, "Health: 0 checks (0✅ 0⚠️ 0❌)");
    assert_eq!(latest_overall(&Some(a)), HealthStatus::Healthy);
    assert_eq!(latest_overall(&None), HealthStatus::Unhealthy);
}

fn pairs(v: &[(&str, &str)]) -> Vec<(String, String)> {
    v.iter().map(|(a, b)| (a.to_string(), b.to_string())).collect()
}

#[test]
fn embedding_probe_results() {
    let c = EmbeddingServiceHealthCheck::new();
    assert_eq!(c.name(), "embedding_service");
    assert_eq!(c.timeout(), Duration::from_secs(5));
    let r = c.result(ProbeOutcome::Answered(384), Duration::from_millis(150), 5);
    assert_eq!(r.status, HealthStatus::Healthy);
    assert_eq!(r.message, "Embedding service healthy: 150ms");
    assert_eq!(r.details, pairs(&[("embedding_dimension", "384"), ("response_time_ms", "150")]));
    assert_eq!(r.name, "embedding_service");

    let r = c.result(ProbeOutcome::Answered(384), Duration::from_millis(2000), 5);
    assert_eq!(r.status, HealthStatus::Healthy);
    let r = c.result(ProbeOutcome::Answered(384), Duration::from_millis(2500), 5);
    assert_eq!(r.status, HealthStatus::Degraded);
    assert_eq!(r.message, "Embedding service slow: 2500ms");

    let r = c.result(ProbeOutcome::Failed("boom".to_string()), Duration::from_millis(3), 5);
    assert_eq!(r.status, HealthStatus::Unhealthy);
    assert_eq!(r.message, "Embedding service error: boom");
    assert_eq!(r.details, pairs(&[("error", "boom")]));

    let r = c.result(ProbeOutcome::TimedOut, Duration::from_secs(5), 5);
    assert_eq!(r.message, "Embedding service timeout");
    assert_eq!(r.details, pairs(&[("timeout_ms", "5000")]));
}

#[test]
fn vector_store_probe_results() {
    let c = VectorStoreHealthCheck::new();
    assert_eq!(c.name(), "vector_store");
    let r = c.result(ProbeOutcome::Answered(3), Duration::from_millis(1200), 1);
    assert_eq!(r.status, HealthStatus::Degraded);
    assert_eq!(r.message, "Vector store slow: 1200ms");
    assert_eq!(r.details, pairs(&[("results_count", "3"), ("response_time_ms", "1200")]));
    let r = c.result(ProbeOutcome::TimedOut, Duration::from_secs(3), 1);
    assert_eq!(r.details, pairs(&[("timeout_ms", "3000")]));
    let t = timed_out_check("memory".to_string(), Duration::from_secs(2), 4);
    assert_eq!(t.status, HealthStatus::Unhealthy);
    assert_eq!(t.message, "Health check timeout");
    assert!(t.details.is_empty());
}

#[test]
fn monitoring_settings_from_environment() {
    let c = MonitoringConfig::default();
    assert_eq!(c.collection_interval_seconds, 30);
    assert!(!c.enable_detailed_logging && !c.enable_profiling);
    assert!(c.export_endpoints.is_empty());

    let env: Vec<(String, String)> = vec![
        ("MONITORING_COLLECTION_INTERVAL".to_string(), "15".to_string()),
        ("MONITORING_DETAILED_LOGGING".to_string(), "TRUE".to_string()),
        ("MONITORING_ENABLE_PROFILING".to_string(), "yes".to_string()),
        ("MONITORING_EXPORT_ENDPOINTS".to_string(), " http://a , http://b,".to_string()),
    ];
    let c = MonitoringConfig::from_env(&env);
    assert_eq!(c.collection_interval_seconds, 15);
    assert!(c.enable_detailed_logging);
    assert!(!c.enable_profiling);
    assert_eq!(c.export_endpoints, vec!["http://a".to_string(), "http://b".to_string(), String::new()]);

    let env: Vec<(String, String)> = vec![("MONITORING_COLLECTION_INTERVAL".to_string(), "soon".to_string())];
    assert_eq!(MonitoringConfig::from_env(&env).collection_interval_seconds, 30);
}

#[test]
fn initiated_shutdown_runs_to_complete() {
    let all = names(&["http_server", "search_service", "vector_store", "embedding_service"]);

    let mut s = GracefulShutdown::new(ShutdownConfig::default());
    assert!(s.initiate_shutdown_at(ShutdownSignal::Immediate, 50, false).is_ok());
    let st = s.get_state();
    assert!(st.shutdown_initiated);
    assert_eq!(st.current_phase, ShutdownPhase::Complete);
    assert_eq!(st.completed_services, all);
    assert!(st.pending_services.is_empty());
    assert_eq!(st.shutdown_started_at, Some(50));
    // A second request changes nothing.
    assert!(s.initiate_shutdown_at(ShutdownSignal::Force, 60, true).is_ok());
    assert_eq!(s.get_state().shutdown_started_at, Some(50));
    assert!(!s.get_state().forced_shutdown);

    let mut s = GracefulShutdown::new(ShutdownConfig::default());
    assert!(s.initiate_shutdown_at(ShutdownSignal::Graceful, 70, true).is_ok());
    assert_eq!(s.get_state().current_phase, ShutdownPhase::Complete);
    assert_eq!(s.get_state().completed_services, all);

    let mut s = GracefulShutdown::new(ShutdownConfig::default());
    assert_eq!(
        s.initiate_shutdown_at(ShutdownSignal::Graceful, 70, false),
        Err("Timeout while draining connections".to_string())
    );
    assert_eq!(s.get_state().current_phase, ShutdownPhase::Draining);
    assert!(s.get_state().completed_services.is_empty());

    let mut s = GracefulShutdown::new(ShutdownConfig::default());
    assert!(s.initiate_shutdown_at(ShutdownSignal::Force, 80, false).is_ok());
    assert!(s.get_state().forced_shutdown);
    assert_eq!(s.get_state().current_phase, ShutdownPhase::Complete);
    assert!(s.get_state().completed_services.is_empty());
}
