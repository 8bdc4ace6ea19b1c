use doc_indexer::http::{reindex_step, ReindexAction, ReindexEvent, ReindexState};
use doc_indexer::load_testing::MetricsCollector;
use doc_indexer::http::{index_collection, index_collection_request, index_recursive, index_success};
use std::time::Duration;

use doc_indexer::concurrent_search::{operation_stats, OperationKind};
use doc_indexer::embeddings::{check_text, LocalEmbeddingConfig, OpenAIAdapter, OpenAIConfig};
use doc_indexer::http::{
    app_error_status, cors_origins, delete_collection_response, document_summary, documents_on_page,
    estimated_size_bytes, indexing_filters, listing_parameters, needs_collection_creation, page_of, page_offset,
    search_limit, total_pages, CorsOrigins, ListDocumentsQuery, ServerConfig,
};
use doc_indexer::jsonrpc::ZeroLatencyError;
use doc_indexer::load_testing::{
    document_pool, order_statistics, query_pool, scenario_name, scenario_timeout_secs, sorted_times, validate_response,
    LoadTestConfig, ResponseShape, ScenarioKind,
};
use doc_indexer::model_manager::{join_path, ModelManager};
use doc_indexer::stdio::{is_blank_line, should_use_batch_mode, should_use_stdio};
use doc_indexer::text::split_and_trim;
use doc_indexer::vector::{EmbeddedConfig, QdrantConfig};

fn strings(v: &[&str]) -> Vec<String> {
    v.iter().map(|s| s.to_string()).collect()
}

#[test]
fn test_text_preparation() {
    let config = OpenAIConfig { api_key: "test-key".to_string(), ..Default::default() };
    let adapter = OpenAIAdapter::new(config).unwrap();

    let short_text = "Short text";
    assert_eq!(adapter.prepare_text(short_text), short_text);

    let long_text = "A".repeat(10000);
    let prepared = adapter.prepare_text(&long_text);
    assert!(prepared.len() < long_text.len());
    assert!(prepared.ends_with("..."));
    assert_eq!(prepared.len(), 8003);
}

#[test]
fn openai_adapter_settings() {
    assert!(OpenAIAdapter::new(OpenAIConfig::default()).is_err());
    let a = OpenAIAdapter::new(OpenAIConfig { api_key: "k".to_string(), ..Default::default() }).unwrap();
    assert_eq!(a.embedding_dimension(), 1536);
    assert_eq!(a.model_name(), "text-embedding-3-small");
    let big = OpenAIAdapter::new(OpenAIConfig {
        api_key: "k".to_string(),
        model: "text-embedding-3-large".to_string(),
        ..Default::default()
    })
    .unwrap();
    assert_eq!(big.embedding_dimension(), 3072);
}

#[test]
fn test_empty_text_error() {
    assert!(check_text("").is_err());
    assert!(check_text("hello").is_ok());
    assert!(LocalEmbeddingConfig { dimension: 0, seed: 1, enable_vector_pooling: true }.validate().is_err());
    let pool = LocalEmbeddingConfig::default().validate().unwrap().unwrap();
    assert_eq!((pool.max_pool_size, pool.dimension, pool.dimension_tolerance), (50, 384, 16));
}

#[test]
fn listing_pages() {
    let q = ListDocumentsQuery { collection: None, page: Some(0), limit: Some(500) };
    assert_eq!(listing_parameters(&q), ("zero_latency_docs".to_string(), 1, 100));
    let q = ListDocumentsQuery { collection: Some("c".to_string()), page: None, limit: None };
    assert_eq!(listing_parameters(&q), ("c".to_string(), 1, 50));
    assert_eq!(total_pages(0, 10), 0);
    assert_eq!(total_pages(101, 10), 11);
    assert_eq!(total_pages(100, 10), 10);
    assert_eq!(page_offset(3, 20), 40);
    assert_eq!(search_limit(50, 40), 90);
    assert_eq!(search_limit(50, 60), 100);
    assert_eq!(documents_on_page(50, 120, 100), 20);
    assert_eq!(documents_on_page(50, 20, 100), 0);
    assert_eq!(page_of(vec![1, 2, 3, 4, 5], 1, 2), vec![2, 3]);
    assert_eq!(page_of(vec![1, 2, 3], 5, 2), Vec::<i32>::new());
    assert_eq!(estimated_size_bytes(10), 16360);
}

#[test]
fn listed_documents() {
    let d = document_summary("id1".to_string(), "guide.md", None, "hello", None, None);
    assert_eq!(d.title, "guide");
    assert_eq!(d.path, "guide.md");
    assert_eq!(d.size, 5);
    assert_eq!(d.last_modified, "Unknown");
    let d = document_summary(
        "id2".to_string(),
        "",
        Some("https://x/y".to_string()),
        "",
        Some("2024-01-01".to_string()),
        Some("2023".to_string()),
    );
    assert_eq!(d.title, "Untitled Document");
    assert_eq!(d.path, "https://x/y");
    assert_eq!(d.last_modified, "2024-01-01");
}

#[test]
fn indexing_filter_choices() {
    assert!(indexing_filters(None, None, None, None, None, strings(&["target"])).is_none());
    let f = indexing_filters(
        Some(strings(&["*.md"])),
        Some(strings(&["*.tmp"])),
        None,
        Some(true),
        None,
        strings(&["target", ".git"]),
    )
    .unwrap();
    assert_eq!(f.safe_list, strings(&["*.md"]));
    assert_eq!(f.ignore_list, strings(&["target", ".git", "*.tmp"]));
    assert!(f.follow_symlinks && !f.case_sensitive);
    let f = indexing_filters(None, None, Some(true), None, None, strings(&["target"])).unwrap();
    assert!(f.ignore_list.is_empty());
    assert!(needs_collection_creation("notes", &strings(&["docs"])));
    assert!(!needs_collection_creation("docs", &strings(&["docs"])));
    assert!(!needs_collection_creation("zero_latency_docs", &Vec::new()));
}

#[test]
fn error_statuses() {
    let e = ZeroLatencyError::Validation { field: "q".to_string(), message: "empty".to_string() };
    assert_eq!(app_error_status(&e), (400, "q: empty".to_string()));
    let e = ZeroLatencyError::NotFound { resource: "doc".to_string() };
    assert_eq!(app_error_status(&e), (404, "Not found: doc".to_string()));
    let e = ZeroLatencyError::PermissionDenied { operation: "rm".to_string() };
    assert_eq!(app_error_status(&e), (403, "Permission denied: rm".to_string()));
    assert!(delete_collection_response(true).success);
    assert_eq!(delete_collection_response(false).message, "Collection not found");
}

#[test]
fn server_settings() {
    let c = ServerConfig::default();
    assert_eq!((c.host.as_str(), c.port, c.timeout_seconds, c.enable_cors), ("0.0.0.0", 8080, 300, true));
    assert!(matches!(cors_origins(&c, true), CorsOrigins::Any));
    let c = ServerConfig { cors_origins: strings(&["http://localhost:3000"]), ..Default::default() };
    match cors_origins(&c, true) {
        CorsOrigins::Listed(v) => assert_eq!(v, strings(&["http://localhost:3000"])),
        other => panic!("unexpected {:?}", other),
    }
    assert!(matches!(cors_origins(&c, false), CorsOrigins::Any));
}

#[test]
fn command_line_modes() {
    assert!(should_use_stdio(&strings(&["doc-indexer", "--stdio"])));
    assert!(!should_use_stdio(&strings(&["doc-indexer"])));
    assert!(should_use_batch_mode(&strings(&["doc-indexer", "--batch"])));
    assert!(is_blank_line("  \t"));
    assert!(!is_blank_line(" x "));
}

#[test]
fn model_paths() {
    let m = ModelManager::with_home("/home/u");
    assert_eq!(m.cache_dir(), "/home/u/.cache/zero-latency/models");
    assert_eq!(join_path("/a/", "b"), "/a/b");
    assert_eq!(join_path("/a", "/b"), "/b");
}

#[test]
fn vector_store_settings() {
    let c = EmbeddedConfig::under_home(Some("/home/u".to_string()));
    assert_eq!(c.db_path, "/home/u/.zero-latency/vectors.db");
    assert_eq!((c.dimension, c.cache_size), (384, 10000));
    assert_eq!(EmbeddedConfig::under_home(None).db_path, "./.zero-latency/vectors.db");
    let q = QdrantConfig::default();
    assert_eq!(q.url, "http://localhost:6333");
    assert_eq!(q.collection_name, "zero_latency_docs");
    assert_eq!(q.timeout_seconds, 30);
}

#[test]
fn active_operation_counts() {
    let ops = vec![
        OperationKind::Search { query: "a".to_string() },
        OperationKind::Index { collection: "c".to_string() },
        OperationKind::Search { query: "b".to_string() },
    ];
    let s = operation_stats(&ops, 98, 9);
    assert_eq!((s.active_searches, s.active_indexing, s.available_read_permits, s.available_write_permits), (2, 1, 98, 9));
}

#[test]
fn load_test_settings_and_statistics() {
    let c = LoadTestConfig::default();
    assert_eq!(c.concurrency, 10);
    assert_eq!(c.duration, Duration::from_secs(60));
    assert!(c.rate_limit.is_none());
    let env = vec![("LOAD_TEST_RATE_LIMIT".to_string(), "250".to_string())];
    assert_eq!(LoadTestConfig::from_env(&env).rate_limit, Some(250));

    assert_eq!(sorted_times(&vec![5, 1, 4, 1, 3]), vec![1, 1, 3, 4, 5]);
    assert_eq!(order_statistics(&Vec::new()), (0, 0, 0, 0, 0));
    let times: Vec<u64> = (1..=100).rev().collect();
    assert_eq!(order_statistics(&times), (1, 100, 51, 96, 100));
    assert_eq!(order_statistics(&vec![7, 3]), (3, 7, 7, 7, 7));
}

#[test]
fn splitting_and_trimming() {
    assert_eq!(split_and_trim(" a , b,,c ", ','), strings(&["a", "b", "", "c"]));
    assert_eq!(split_and_trim("", ','), strings(&[""]));
    assert_eq!(split_and_trim("x,", ','), strings(&["x", ""]));
}

#[test]
fn scenario_validation() {
    assert!(validate_response(ScenarioKind::EmbeddingIntensive, &ResponseShape::Embedding { dimension: 384 }).is_ok());
    assert_eq!(
        validate_response(ScenarioKind::EmbeddingIntensive, &ResponseShape::Embedding { dimension: 0 }).unwrap_err(),
        "Empty embedding vector"
    );
    assert_eq!(
        validate_response(ScenarioKind::EmbeddingIntensive, &ResponseShape::Embedding { dimension: 128 }).unwrap_err(),
        "Unexpected embedding dimension: 128"
    );
    assert_eq!(
        validate_response(ScenarioKind::EmbeddingIntensive, &ResponseShape::Search { is_null: false }).unwrap_err(),
        "Unexpected response type for embedding scenario"
    );
    assert_eq!(
        validate_response(ScenarioKind::SearchIntensive, &ResponseShape::Search { is_null: true }).unwrap_err(),
        "Null search results"
    );
    assert_eq!(
        validate_response(ScenarioKind::SearchIntensive, &ResponseShape::Error("down".to_string())).unwrap_err(),
        "Search error: down"
    );
    assert!(validate_response(ScenarioKind::MixedWorkload, &ResponseShape::Search { is_null: false }).is_ok());
    assert_eq!(
        validate_response(ScenarioKind::MixedWorkload, &ResponseShape::Embedding { dimension: 3 }).unwrap_err(),
        "Unexpected embedding dimension: 3"
    );
    assert_eq!(
        validate_response(ScenarioKind::MixedWorkload, &ResponseShape::Error("x".to_string())).unwrap_err(),
        "Mixed workload error: x"
    );
    assert_eq!(
        validate_response(ScenarioKind::MixedWorkload, &ResponseShape::Batch).unwrap_err(),
        "Unexpected response type for mixed workload scenario"
    );
    assert_eq!(document_pool().len(), 8);
    assert_eq!(query_pool()[1], "rust memory safety");
    assert_eq!(scenario_name(ScenarioKind::MixedWorkload), "mixed_workload");
    assert_eq!(scenario_timeout_secs(ScenarioKind::SearchIntensive), 3);
}

#[test]
fn indexing_from_a_path() {
    assert_eq!(index_collection(None), "zero_latency_docs");
    assert_eq!(index_collection(Some("notes".to_string())), "notes");
    assert!(index_recursive(None));
    assert!(!index_recursive(Some(false)));
    let r = index_collection_request("notes".to_string(), "/docs");
    assert_eq!(r.name, "notes");
    assert_eq!(r.vector_size, 384);
    assert_eq!(r.distance_metric.as_deref(), Some("cosine"));
    assert_eq!(r.description.as_deref(), Some("Collection created for indexing /docs"));
    let (status, message) = index_success(12, "/docs");
    assert_eq!(status, "success");
    assert_eq!(message, "Successfully indexed 12 documents from path: /docs");
}

#[test]
fn reindexing_runs_its_steps_in_order() {
    let s = ReindexState::Start { collection: None };
    let (s, a) = reindex_step(s, ReindexEvent::Begin);
    assert!(matches!(a, ReindexAction::DeleteCollection { ref name } if name == "zero_latency_docs"));
    let (s, a) = reindex_step(s, ReindexEvent::Deleted);
    match a {
        ReindexAction::CreateCollection { request } => {
            assert_eq!(request.name, "zero_latency_docs");
            assert_eq!(request.vector_size, 384);
            assert_eq!(request.distance_metric.as_deref(), Some("cosine"));
            assert_eq!(request.description.as_deref(), Some("Reindexed collection: zero_latency_docs"));
        }
        other => panic!("unexpected {:?}", other),
    }
    let (s, a) = reindex_step(s, ReindexEvent::Created);
    assert!(matches!(a, ReindexAction::ReadWorkingDirectory));
    let (s, a) = reindex_step(s, ReindexEvent::Directory { path: "/work".to_string() });
    assert!(matches!(a, ReindexAction::Index { ref path, recursive: true, ref collection } if path == "/work" && collection == "zero_latency_docs"));
    let (s, a) = reindex_step(s, ReindexEvent::Indexed { documents_processed: 7 });
    match a {
        ReindexAction::Finish { collection, documents_processed, status, message } => {
            assert_eq!(collection, "zero_latency_docs");
            assert_eq!(documents_processed, 7);
            assert_eq!(status, "completed");
            assert_eq!(message, "Successfully reindexed 7 documents");
        }
        other => panic!("unexpected {:?}", other),
    }
    assert!(matches!(s, ReindexState::Done));

    let s = ReindexState::FindingDirectory { collection: "c".to_string() };
    let (s, a) = reindex_step(s, ReindexEvent::DirectoryUnreadable { message: "gone".to_string() });
    assert!(matches!(s, ReindexState::Failed));
    assert!(matches!(a, ReindexAction::Fail { error: ZeroLatencyError::ExternalService { ref service, ref message } } if service == "filesystem" && message == "gone"));
    let (_, a) = reindex_step(ReindexState::Done, ReindexEvent::Deleted);
    assert!(matches!(a, ReindexAction::Nothing));
}

#[test]
fn metrics_collector_counts() {
    let mut m = MetricsCollector::new();
    m.record_success("search", Duration::from_millis(5));
    m.record_success("search", Duration::from_millis(7));
    m.record_error("search", "timeout");
    m.record_error("embed", "timeout");
    assert_eq!(m.total_requests(), 2);
    assert_eq!(m.response_times(), &vec![Duration::from_millis(5), Duration::from_millis(7)]);
    assert_eq!(m.error_counts(), &vec![("timeout".to_string(), 2)]);
    let (requests, successes) = m.scenario_counts();
    assert_eq!(requests, &vec![("search".to_string(), 3), ("embed".to_string(), 1)]);
    assert_eq!(successes, &vec![("search".to_string(), 2)]);
}
