use doc_indexer::batch::{
    BatchError, BatchOperationError, BatchOperationRequest, BatchOperationStatus, BatchOperationType,
    BatchProcessingConfig, BatchProcessor, BatchProcessorConfig,
};

fn ids(v: &[&str]) -> Vec<String> {
    v.iter().map(|s| s.to_string()).collect()
}

fn request(id: Option<&str>, op: BatchOperationType) -> BatchOperationRequest {
    BatchOperationRequest {
        operation_id: id.map(|s| s.to_string()),
        operation: op,
        config: BatchProcessingConfig {
            max_concurrency: None,
            batch_size: Some(7),
            timeout_seconds: None,
            continue_on_error: None,
            max_retries: None,
            progress_interval: None,
            memory_limit_mb: None,
        },
        priority: Some(5),
        callback_url: None,
        metadata: None,
    }
}

fn index_op(n: usize) -> BatchOperationType {
    BatchOperationType::BulkIndex {
        document_ids: (0..n).map(|i| format!("doc{}", i)).collect(),
        collection_id: Some("collection1".to_string()),
    }
}

#[test]
fn test_batch_processor_creation() {
    let config = BatchProcessorConfig::default();
    let processor = BatchProcessor::new(config);
    let operations = processor.list_operations();
    assert!(operations.is_empty());
}

#[test]
fn submitted_operation_is_queued_under_generated_id() {
    let mut p = BatchProcessor::new(BatchProcessorConfig::default());
    let (id, prepared) = p.submit_operation_at(request(None, index_op(4)), 1700000000, "abcdefgh-1234");
    assert_eq!(id, "batch_1700000000_abcdefgh");
    assert_eq!(prepared.config.batch_size, Some(7));
    assert_eq!(prepared.config.max_concurrency, Some(5));
    assert_eq!(prepared.config.timeout_seconds, Some(3600));
    let rec = p.get_operation_status(&id).unwrap();
    assert_eq!(rec.status, BatchOperationStatus::Queued);
    assert_eq!(rec.progress.total_items, 4);
    assert_eq!(rec.progress.processed_items, 0);
    assert_eq!(rec.started_at, 1700000000);
    assert!(rec.completed_at.is_none());
    assert!(p.get_operation_status("other").is_none());
}

#[test]
fn total_items_per_operation_kind() {
    let p = BatchProcessor::new(BatchProcessorConfig::default());
    assert_eq!(p.calculate_total_items(&index_op(3)), 3);
    assert_eq!(
        p.calculate_total_items(&BatchOperationType::BulkSearch { queries: ids(&["a", "b"]), collection_id: None }),
        2
    );
    assert_eq!(
        p.calculate_total_items(&BatchOperationType::BulkVectorSearch { vector_count: 9, k: 3, collection_id: None }),
        9
    );
    assert_eq!(
        p.calculate_total_items(&BatchOperationType::CollectionMigration {
            source_collection: "a".to_string(),
            target_collection: "b".to_string()
        }),
        1
    );
    assert_eq!(
        p.calculate_total_items(&BatchOperationType::IndexRebuild { collection_id: "a".to_string(), optimize: true }),
        1
    );
}

#[test]
fn cancelling_follows_status() {
    let mut p = BatchProcessor::new(BatchProcessorConfig::default());
    let (id, _) = p.submit_operation_at(request(Some("op1"), index_op(2)), 10, "ffffffff");
    assert_eq!(id, "op1");
    assert!(p.cancel_operation_at("op1", 20).is_ok());
    let rec = p.get_operation_status("op1").unwrap();
    assert_eq!(rec.status, BatchOperationStatus::Cancelled);
    assert_eq!(rec.completed_at, Some(20));
    match p.cancel_operation_at("op1", 30) {
        Err(e @ BatchOperationError::CannotCancel { .. }) => {
            assert_eq!(e.message(), "Cannot cancel operation in status: Cancelled")
        }
        other => panic!("unexpected {:?}", other),
    }
    match p.cancel_operation_at("missing", 30) {
        Err(e @ BatchOperationError::NotFound { .. }) => assert_eq!(e.message(), "Operation 'missing' not found"),
        other => panic!("unexpected {:?}", other),
    }
}

#[test]
fn progress_and_completion() {
    let mut p = BatchProcessor::new(BatchProcessorConfig::default());
    let (id, _) = p.submit_operation_at(request(Some("op2"), index_op(100)), 100, "ffffffff");
    p.mark_running(&id);
    assert_eq!(p.get_operation_status(&id).unwrap().status, BatchOperationStatus::Running);
    p.update_progress_at(&id, 25, 23, 2, 110);
    let rec = p.get_operation_status(&id).unwrap();
    assert_eq!(rec.progress.processed_items, 25);
    assert_eq!(rec.progress.successful_items, 23);
    assert_eq!(rec.progress.failed_items, 2);
    assert_eq!(rec.progress.estimated_remaining_seconds, Some(30));

    p.finish_operation_at(&id, true, 200, 1234);
    let rec = p.get_operation_status(&id).unwrap();
    assert_eq!(rec.status, BatchOperationStatus::Completed);
    assert_eq!(rec.total_processing_time_ms, 1234);

    let (id3, _) = p.submit_operation_at(request(Some("op3"), index_op(1)), 100, "ffffffff");
    p.record_error(
        &id3,
        BatchError {
            item_id: "doc0".to_string(),
            error_type: "index".to_string(),
            message: "failed".to_string(),
            code: None,
            retry_count: 0,
            occurred_at: 101,
        },
    );
    p.finish_operation_at(&id3, true, 200, 5);
    assert_eq!(p.get_operation_status(&id3).unwrap().status, BatchOperationStatus::CompletedWithErrors);

    let (id4, _) = p.submit_operation_at(request(Some("op4"), index_op(1)), 100, "ffffffff");
    p.finish_operation_at(&id4, false, 200, 5);
    assert_eq!(p.get_operation_status(&id4).unwrap().status, BatchOperationStatus::Failed);
}

#[test]
fn cleanup_removes_old_finished_operations() {
    let mut p = BatchProcessor::new(BatchProcessorConfig::default());
    let hours: u64 = 24;
    let now = hours * 3600 + 1000;
    p.submit_operation_at(request(Some("old"), index_op(1)), 1, "ffffffff");
    p.finish_operation_at("old", true, 10, 1);
    p.submit_operation_at(request(Some("recent"), index_op(1)), 1, "ffffffff");
    p.finish_operation_at("recent", true, now, 1);
    p.submit_operation_at(request(Some("queued"), index_op(1)), 1, "ffffffff");
    let removed = p.cleanup_completed_at(now);
    assert_eq!(removed, ids(&["old"]));
    let left: Vec<String> = p.list_operations().iter().map(|r| r.operation_id.clone()).collect();
    assert_eq!(left, ids(&["recent", "queued"]));
}

#[test]
fn cleanup_as_of_a_clock_reading() {
    let mut p = BatchProcessor::new(BatchProcessorConfig::default());
    p.submit_operation_at(request(Some("old"), index_op(1)), 1, "ffffffff");
    p.finish_operation_at("old", true, 10, 1);
    // Before the epoch, or inside the first window: nothing is removed.
    assert_eq!(p.cleanup_completed_as_of(-5), None);
    assert_eq!(p.cleanup_completed_as_of(24 * 3600 - 1), None);
    assert_eq!(p.list_operations().len(), 1);
    assert_eq!(p.cleanup_completed_as_of(24 * 3600 + 11), Some(ids(&["old"])));
    assert!(p.list_operations().is_empty());
}

#[test]
fn cancelled_operation_stays_cancelled() {
    let mut p = BatchProcessor::new(BatchProcessorConfig::default());
    let (id, _) = p.submit_operation_at(request(Some("c1"), index_op(2)), 100, "ffffffff");
    assert!(p.cancel_operation_at(&id, 150).is_ok());
    p.mark_running(&id);
    assert_eq!(p.get_operation_status(&id).unwrap().status, BatchOperationStatus::Cancelled);
    p.finish_operation_at(&id, true, 200, 5);
    assert_eq!(p.get_operation_status(&id).unwrap().status, BatchOperationStatus::Cancelled);
    p.fail_operation_at(&id, "broke".to_string(), 210);
    assert_eq!(p.get_operation_status(&id).unwrap().status, BatchOperationStatus::Cancelled);
}

#[test]
fn submitted_record_keeps_the_request_metadata() {
    let mut p = BatchProcessor::new(BatchProcessorConfig::default());
    let mut req = request(Some("m1"), index_op(1));
    req.metadata = Some(vec![("owner".to_string(), serde_json::Value::String("docs-team".to_string()))]);
    let (id, prepared) = p.submit_operation_at(req, 100, "ffffffff");
    let rec = p.get_operation_status(&id).unwrap();
    assert_eq!(rec.metadata, vec![("owner".to_string(), serde_json::Value::String("docs-team".to_string()))]);
    assert_eq!(prepared.metadata.unwrap().len(), 1);
    let (id2, _) = p.submit_operation_at(request(Some("m2"), index_op(1)), 100, "ffffffff");
    assert!(p.get_operation_status(&id2).unwrap().metadata.is_empty());
}
