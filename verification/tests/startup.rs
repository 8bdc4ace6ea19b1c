use doc_indexer::startup::{
    collect_system_info, filter_environment, standard_step_check, StartupConfig, StartupValidator,
    SystemInfo, ValidationResult,
};

#[test]
fn test_startup_validator_creation() {
    let config = StartupConfig::default();
    let validator = StartupValidator::new(config);

    assert_eq!(validator.validation_steps().len(), 0);
    assert_eq!(validator.step_results().len(), 0);
}

#[test]
fn test_standard_validation_steps() {
    let steps = StartupValidator::create_standard_steps();

    assert!(!steps.is_empty());
    assert!(steps.iter().any(|s| s.id == "config_validation"));
    assert!(steps.iter().any(|s| s.id == "vector_store_initialization"));
}

#[test]
fn test_system_info_creation() {
    // Test that we can create system info without panicking
    let info = SystemInfo {
        os: "linux".to_string(),
        arch: "x86_64".to_string(),
        available_memory_mb: 1024,
        cpu_cores: num_cpus::get() as u32,
        rust_version: "1.70.0".to_string(),
        app_version: "0.1.0".to_string(),
        environment: Vec::new(),
    };

    assert!(!info.os.is_empty());
    assert!(!info.arch.is_empty());
    assert!(info.cpu_cores > 0);
}

fn result(id: &str, passed: bool, message: &str, warnings: Vec<String>) -> ValidationResult {
    ValidationResult {
        step_id: id.to_string(),
        passed,
        message: message.to_string(),
        execution_time_ms: 1,
        warnings,
        completed_at: 0,
    }
}

#[test]
fn sequential_validation_stops_at_required_failure() {
    let mut v = StartupValidator::new(StartupConfig::default());
    v.add_steps(StartupValidator::create_standard_steps());
    assert_eq!(v.validation_steps().len(), 6);
    // A non-required step failing does not stop validation.
    assert!(v.record_step_result(4, result("memory_pool_initialization", false, "no pools", vec![])));
    // A required step failing does.
    assert!(!v.record_step_result(1, result("database_connectivity", false, "refused", vec!["slow".to_string()])));
    let (success, critical, warnings) = v.analyze_results();
    assert!(!success);
    assert_eq!(critical, vec!["Database Connectivity: refused".to_string()]);
    assert_eq!(
        warnings,
        vec![
            "Memory Pool Initialization: no pools".to_string(),
            "database_connectivity: slow".to_string()
        ]
    );
    // Recording a step again replaces its result.
    assert!(v.record_step_result(1, result("database_connectivity", true, "ok", vec![])));
    assert_eq!(v.step_results().len(), 2);
    let (success, critical, _) = v.analyze_results();
    assert!(success);
    assert!(critical.is_empty());
}

#[test]
fn retries_and_timeouts() {
    let mut v = StartupValidator::new(StartupConfig::default());
    v.add_steps(StartupValidator::create_standard_steps());
    assert_eq!(v.max_attempts(0), 3);
    assert_eq!(v.max_attempts(4), 1);
    assert!(StartupValidator::should_retry(false, 1, 3));
    assert!(!StartupValidator::should_retry(true, 1, 3));
    assert!(!StartupValidator::should_retry(false, 3, 3));
    let t = StartupValidator::timeout_result(&v.validation_steps()[0], 7);
    assert!(!t.passed);
    assert_eq!(t.message, "Validation step timed out after 10 seconds");
    assert_eq!(t.execution_time_ms, 10_000);
    assert_eq!(t.completed_at, 7);
}

#[test]
fn standard_checks_report_their_messages() {
    let r = standard_step_check("embedding_service_check", 5).unwrap();
    assert!(r.passed);
    assert_eq!(r.message, "Embedding service is accessible");
    assert_eq!(r.execution_time_ms, 800);
    assert!(standard_step_check("unknown", 5).is_none());
}

#[test]
fn environment_filter_drops_credentials() {
    let vars = vec![
        ("PATH".to_string(), "/bin".to_string()),
        ("DB_PASSWORD".to_string(), "x".to_string()),
        ("Api_Key".to_string(), "y".to_string()),
        ("GITHUB_TOKEN".to_string(), "z".to_string()),
        ("my_secret".to_string(), "w".to_string()),
        ("HOME".to_string(), "/root".to_string()),
    ];
    let kept = filter_environment(&vars);
    assert_eq!(
        kept,
        vec![("PATH".to_string(), "/bin".to_string()), ("HOME".to_string(), "/root".to_string())]
    );
    let info = collect_system_info(&vars, "linux", "x86_64", "1.70.0", "0.1.0");
    assert_eq!(info.environment.len(), 2);
    assert_eq!(info.available_memory_mb, 0);
    assert!(info.cpu_cores >= 1);
}

#[test]
fn startup_config_reads_environment() {
    let env = vec![
        ("STARTUP_TIMEOUT".to_string(), "60".to_string()),
        ("STARTUP_PARALLEL_VALIDATION".to_string(), "FALSE".to_string()),
        ("STARTUP_RESULTS_FILE".to_string(), "/tmp/r.json".to_string()),
        ("STARTUP_RETRY_ATTEMPTS".to_string(), "many".to_string()),
    ];
    let c = StartupConfig::from_env(&env);
    assert_eq!(c.startup_timeout_seconds, 60);
    assert!(!c.enable_parallel_validation);
    assert_eq!(c.results_file_path, "/tmp/r.json");
    assert_eq!(c.retry_attempts, 2);
    let d = StartupConfig::default();
    assert_eq!(d.startup_timeout_seconds, 300);
    assert_eq!(d.results_file_path, "./data/startup_results.json");
}
