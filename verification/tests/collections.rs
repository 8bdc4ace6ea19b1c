use doc_indexer::api::{ApiBatchOperationRequest, ApiCreateCollectionRequest, ApiServiceConfig, EnhancedApiService, to_internal_request};
use doc_indexer::batch::{BatchOperationType, BatchProcessor, BatchProcessorConfig};
use doc_indexer::collections::{
    cross_collection_stats, generate_collection_id, CollectionError, CollectionManager, CollectionManagerConfig,
    CreateCollectionRequest, SearchConfig, VectorStoreConfig,
};

fn strings(v: &[&str]) -> Vec<String> {
    v.iter().map(|s| s.to_string()).collect()
}

fn api(config: ApiServiceConfig) -> EnhancedApiService {
    EnhancedApiService::new(
        config,
        CollectionManager::new(CollectionManagerConfig::default()),
        BatchProcessor::new(BatchProcessorConfig::default()),
    )
}

fn create_request(name: &str) -> ApiCreateCollectionRequest {
    ApiCreateCollectionRequest {
        name: name.to_string(),
        description: None,
        vector_dimension: None,
        distance_metric: None,
        metadata: None,
        enable_semantic_search: None,
        default_search_limit: None,
    }
}

#[test]
fn test_collection_manager_creation() {
    let config = CollectionManagerConfig::default();
    let manager = CollectionManager::new(config);
    let collections = manager.list_collections();
    assert!(collections.is_empty());
}

#[test]
fn collection_ids_from_names() {
    assert_eq!(generate_collection_id("My Docs!", 1700000000), "mydocs_1700000000");
    assert_eq!(generate_collection_id("api-v2", 5), "api-v2_5");
}

#[test]
fn creating_a_collection_stores_it_with_fresh_statistics() {
    let mut m = CollectionManager::new(CollectionManagerConfig::default());
    let c = m.create_collection_at(to_internal_request(create_request("docs")), 10).unwrap();
    assert_eq!(c.id, "docs_10");
    assert_eq!(c.name, "docs");
    assert!(c.active);
    assert_eq!((c.created_at, c.updated_at), (10, 10));
    assert!(c.metadata.is_empty());
    assert_eq!(m.list_collections().len(), 1);
    assert_eq!(m.get_collection("docs_10").unwrap().name, "docs");
    let st = m.get_collection_stats("docs_10").unwrap();
    assert_eq!((st.document_count, st.total_size_bytes, st.total_searches, st.last_updated), (0, 0, 0, 10));
    match m.create_collection_at(to_internal_request(create_request("docs")), 11) {
        Err(e @ CollectionError::DuplicateName { .. }) => {
            assert_eq!(e.message(), "Collection with name 'docs' already exists")
        }
        other => panic!("unexpected {:?}", other),
    }
    assert_eq!(m.list_collections().len(), 1);

    let full = CollectionManagerConfig { max_collections: 0, ..Default::default() };
    let mut m = CollectionManager::new(full);
    let req = CreateCollectionRequest {
        name: "docs".to_string(),
        description: None,
        vector_config: VectorStoreConfig {
            dimension: 3,
            metric: "cosine".to_string(),
            index_type: "hnsw".to_string(),
            index_params: Vec::new(),
            max_vectors: None,
        },
        search_config: Some(SearchConfig { default_limit: 5, max_limit: 50, enable_metadata_filtering: false }),
        metadata: None,
    };
    match m.create_collection_at(req, 10) {
        Err(e @ CollectionError::LimitReached { .. }) => {
            assert_eq!(e.message(), "Maximum number of collections (0) reached")
        }
        other => panic!("unexpected {:?}", other),
    }
}

#[test]
fn api_request_conversion_uses_defaults() {
    let r = to_internal_request(create_request("docs"));
    assert_eq!(r.vector_config.dimension, 384);
    assert_eq!(r.vector_config.metric, "cosine");
    assert_eq!(r.vector_config.index_type, "hnsw");
    let s = r.search_config.unwrap();
    assert_eq!((s.default_limit, s.max_limit, s.enable_metadata_filtering), (10, 1000, true));
    let mut req = create_request("docs");
    req.vector_dimension = Some(768);
    req.distance_metric = Some("euclidean".to_string());
    req.default_search_limit = Some(25);
    let r = to_internal_request(req);
    assert_eq!(r.vector_config.dimension, 768);
    assert_eq!(r.vector_config.metric, "euclidean");
    assert_eq!(r.search_config.unwrap().default_limit, 25);
}

#[test]
fn api_search_checks() {
    let a = api(ApiServiceConfig::default());
    assert!(a.check_search_request(Some(1000), 3).is_ok());
    assert!(a.check_search_request(None, 3).is_ok());
    let e = a.check_search_request(Some(1001), 3).unwrap_err();
    assert_eq!(e.code, "LIMIT_EXCEEDED");
    assert_eq!(e.message, "Search limit 1001 exceeds maximum 1000");
    assert_eq!(e.timestamp, 3);
    assert!(e.details.is_none() && e.request_id.is_none());

    let off = api(ApiServiceConfig { enable_enhanced_search: false, ..Default::default() });
    let e = off.check_search_request(Some(1), 4).unwrap_err();
    assert_eq!(e.code, "FEATURE_DISABLED");
    assert_eq!(e.message, "Enhanced search is not enabled");

    assert_eq!(a.search_collections(Some("c1".to_string())), Some(strings(&["c1"])));
    assert_eq!(a.search_collections(None), None);
    let with_default = api(ApiServiceConfig { default_collection: Some("main".to_string()), ..Default::default() });
    assert_eq!(with_default.search_collections(None), Some(strings(&["main"])));

    assert_eq!(
        EnhancedApiService::refinements(Some(true)),
        Some(strings(&["Try more specific terms", "Use synonyms", "Check spelling"]))
    );
    assert_eq!(EnhancedApiService::refinements(Some(false)), None);
    assert_eq!(EnhancedApiService::refinements(None), None);
}

#[test]
fn api_collection_calls() {
    let mut a = api(ApiServiceConfig::default());
    let c = a.create_collection(create_request("docs"), 8).unwrap();
    assert_eq!(c.id, "docs_8");
    assert_eq!(c.vector_config.dimension, 384);
    assert_eq!(a.list_collections(8).unwrap().len(), 1);
    assert!(a.get_collection("docs_8", 8).is_ok());
    let e = a.create_collection(create_request("docs"), 9).unwrap_err();
    assert_eq!(e.code, "COLLECTION_CREATION_FAILED");
    assert_eq!(e.message, "Failed to create collection: Collection with name 'docs' already exists");
    let e = a.get_collection("x1", 8).unwrap_err();
    assert_eq!(e.code, "COLLECTION_NOT_FOUND");
    assert_eq!(e.message, "Collection x1 not found");

    let mut off = api(ApiServiceConfig { enable_collection_management: false, ..Default::default() });
    let e = off.create_collection(create_request("docs"), 8).unwrap_err();
    assert_eq!(e.code, "FEATURE_DISABLED");
    assert_eq!(e.message, "Collection management is not enabled");
    assert_eq!(off.list_collections(8).unwrap_err().code, "FEATURE_DISABLED");
}

#[test]
fn api_batch_calls() {
    let mut a = api(ApiServiceConfig::default());
    let request = ApiBatchOperationRequest {
        operation: BatchOperationType::BulkDelete { document_ids: strings(&["a", "b"]), collection_id: None },
        priority: Some(3),
        callback_url: None,
        timeout_seconds: Some(60),
        continue_on_error: Some(false),
        metadata: None,
    };
    let (id, prepared, summary) = a.submit_batch_operation(request, 11).unwrap();
    assert!(id.starts_with("batch_"));
    assert!(prepared.operation_id.is_none());
    assert!(matches!(prepared.operation, BatchOperationType::BulkDelete { .. }));
    assert_eq!(prepared.priority, Some(3));
    assert_eq!(prepared.config.max_concurrency, Some(5));
    assert_eq!(prepared.config.timeout_seconds, Some(60));
    assert_eq!(prepared.config.continue_on_error, Some(false));
    assert_eq!(summary.status, "Queued");
    assert_eq!(summary.total_items, 2);
    assert_eq!(summary.processed_items, 0);
    assert!(!summary.has_errors);
    let again = a.get_batch_operation_status(&id, 12).unwrap();
    assert_eq!(again.status, "Queued");
    let e = a.get_batch_operation_status("nope", 12).unwrap_err();
    assert_eq!(e.code, "OPERATION_NOT_FOUND");
    assert_eq!(e.message, "Operation nope not found");

    let mut off = api(ApiServiceConfig { enable_batch_operations: false, ..Default::default() });
    let request = ApiBatchOperationRequest {
        operation: BatchOperationType::IndexRebuild { collection_id: "c".to_string(), optimize: false },
        priority: None,
        callback_url: None,
        timeout_seconds: None,
        continue_on_error: None,
        metadata: None,
    };
    let e = off.submit_batch_operation(request, 1).unwrap_err();
    assert_eq!(e.message, "Batch operations are not enabled");
}

#[test]
fn cross_collection_statistics() {
    let s = cross_collection_stats(
        strings(&["a", "b", "c"]),
        &vec![Some(3), None, Some(4)],
        &vec![10, 0, 5],
        20,
    );
    assert_eq!(s.collections_searched, strings(&["a", "b", "c"]));
    assert_eq!(s.total_results, 7);
    assert_eq!(s.results_per_collection, vec![("a".to_string(), 3), ("c".to_string(), 4)]);
    assert_eq!(
        s.processing_time_per_collection,
        vec![("a".to_string(), 10), ("b".to_string(), 0), ("c".to_string(), 5)]
    );
    assert_eq!(s.total_processing_time_ms, 20);
}
