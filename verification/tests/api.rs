use doc_indexer::api::ApiServiceConfig;

#[test]
fn test_api_service_config_default() {
    let config = ApiServiceConfig::default();
    assert!(config.enable_enhanced_search);
    assert!(config.enable_collection_management);
    assert!(config.enable_batch_operations);
    assert_eq!(config.max_search_results, 1000);
}

#[test]
fn test_confidence_stats_calculation() {
    let scores = vec![0.9, 0.8, 0.7, 0.6, 0.5];
    let sum: f32 = scores.iter().sum();
    let avg = sum / scores.len() as f32;

    assert_eq!(avg, 0.7);

    let min = scores.iter().fold(f32::INFINITY, |a, &b| a.min(b));
    let max = scores.iter().fold(f32::NEG_INFINITY, |a, &b| a.max(b));

    assert_eq!(min, 0.5);
    assert_eq!(max, 0.9);
}

#[test]
fn api_config_reads_environment() {
    let env = vec![
        ("API_MAX_SEARCH_RESULTS".to_string(), "250".to_string()),
        ("API_ENABLE_RATE_LIMITING".to_string(), "True".to_string()),
        ("API_DEFAULT_COLLECTION".to_string(), "docs".to_string()),
        ("API_RATE_LIMIT_PER_MINUTE".to_string(), "-5".to_string()),
    ];
    let c = ApiServiceConfig::from_env(&env);
    assert_eq!(c.max_search_results, 250);
    assert!(c.enable_rate_limiting);
    assert_eq!(c.default_collection, Some("docs".to_string()));
    assert_eq!(c.rate_limit_per_minute, 100);
    assert_eq!(c.max_collections_per_user, 10);
}
