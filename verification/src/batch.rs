//! Batch operations: bulk indexing, updates, deletions, searches, migrations
//! and index rebuilds, tracked from submission through processing to their
//! final status, and cleaned up once finished long enough ago.
//!
//! The registry and every decision about an operation's state live here;
//! running an operation in the background (sleeping between items, drawing
//! the simulated outcome of each) is left to the caller, which reports each
//! event back.

use vstd::prelude::*;
use crate::env::{env_bool, env_flag, env_number, env_u32, env_u64, env_usize, env_view};
use crate::text::{chars_of, decimal, push_signed_decimal, push_decimal, signed_decimal, string_from_chars, string_views};
use crate::json::copy_fields;
use crate::time::{unix_timestamp, uuid_char, uuid_v4_string};

verus! {

/// Where an operation stands.
#[derive(Debug, Clone, Copy, PartialEq, Eq, Structural)]
pub enum BatchOperationStatus {
    Queued,
    Running,
    Completed,
    CompletedWithErrors,
    Failed,
    Cancelled,
    TimedOut,
}

/// The status's name, as it is printed.
pub open spec fn status_name(s: BatchOperationStatus) -> Seq<char> {
    match s {
        BatchOperationStatus::Queued => "Queued"@,
        BatchOperationStatus::Running => "Running"@,
        BatchOperationStatus::Completed => "Completed"@,
        BatchOperationStatus::CompletedWithErrors => "CompletedWithErrors"@,
        BatchOperationStatus::Failed => "Failed"@,
        BatchOperationStatus::Cancelled => "Cancelled"@,
        BatchOperationStatus::TimedOut => "TimedOut"@,
    }
}

impl BatchOperationStatus {
    /// The status's name.
    pub fn name(&self) -> (r: &'static str)
        ensures
            r@ == status_name(*self),
    {
        match self {
            BatchOperationStatus::Queued => "Queued",
            BatchOperationStatus::Running => "Running",
            BatchOperationStatus::Completed => "Completed",
            BatchOperationStatus::CompletedWithErrors => "CompletedWithErrors",
            BatchOperationStatus::Failed => "Failed",
            BatchOperationStatus::Cancelled => "Cancelled",
            BatchOperationStatus::TimedOut => "TimedOut",
        }
    }
}

/// An operation can be cancelled while it waits or runs.
pub open spec fn cancellable(s: BatchOperationStatus) -> bool {
    s == BatchOperationStatus::Queued || s == BatchOperationStatus::Running
}

/// The statuses the cleanup removes: finished, failed or cancelled.
pub open spec fn cleanable(s: BatchOperationStatus) -> bool {
    s == BatchOperationStatus::Completed || s == BatchOperationStatus::CompletedWithErrors
        || s == BatchOperationStatus::Failed || s == BatchOperationStatus::Cancelled
}

/// The status after processing: completed, with errors when any were
/// recorded, or failed when processing itself failed.
pub open spec fn final_status(ok: bool, error_count: nat) -> BatchOperationStatus {
    if !ok {
        BatchOperationStatus::Failed
    } else if error_count == 0 {
        BatchOperationStatus::Completed
    } else {
        BatchOperationStatus::CompletedWithErrors
    }
}

/// The status once processing ends: a cancelled operation stays cancelled,
/// any other takes its final status.
pub open spec fn settled_status(current: BatchOperationStatus, ok: bool, error_count: nat) -> BatchOperationStatus {
    if current == BatchOperationStatus::Cancelled {
        BatchOperationStatus::Cancelled
    } else {
        final_status(ok, error_count)
    }
}

/// The status once processing starts: a cancelled operation stays
/// cancelled, any other runs.
pub open spec fn started_status(current: BatchOperationStatus) -> BatchOperationStatus {
    if current == BatchOperationStatus::Cancelled {
        BatchOperationStatus::Cancelled
    } else {
        BatchOperationStatus::Running
    }
}

/// A range of timestamps.
#[derive(Debug, Clone, Copy)]
pub struct DateRange {
    pub start: Option<u64>,
    pub end: Option<u64>,
}

/// A range of sizes in bytes.
#[derive(Debug, Clone, Copy)]
pub struct SizeRange {
    pub min: Option<u64>,
    pub max: Option<u64>,
}

/// An operation, with what processing reads of its items.
#[derive(Debug, Clone)]
pub enum BatchOperationType {
    /// Index these documents.
    BulkIndex { document_ids: Vec<String>, collection_id: Option<String> },
    /// Update these documents.
    BulkUpdate { document_ids: Vec<String>, collection_id: Option<String> },
    /// Delete these documents.
    BulkDelete { document_ids: Vec<String>, collection_id: Option<String> },
    /// Run these queries.
    BulkSearch { queries: Vec<String>, collection_id: Option<String> },
    /// Search for the `k` nearest neighbours of this many vectors.
    BulkVectorSearch { vector_count: usize, k: usize, collection_id: Option<String> },
    /// Move documents from one collection to another.
    CollectionMigration { source_collection: String, target_collection: String },
    /// Rebuild a collection's index.
    IndexRebuild { collection_id: String, optimize: bool },
}

/// The number of items an operation works through: one per document, query
/// or vector, and one for a migration or a rebuild.
pub open spec fn total_items_of(op: BatchOperationType) -> nat {
    match op {
        BatchOperationType::BulkIndex { document_ids, .. } => document_ids@.len(),
        BatchOperationType::BulkUpdate { document_ids, .. } => document_ids@.len(),
        BatchOperationType::BulkDelete { document_ids, .. } => document_ids@.len(),
        BatchOperationType::BulkSearch { queries, .. } => queries@.len(),
        BatchOperationType::BulkVectorSearch { vector_count, .. } => vector_count as nat,
        BatchOperationType::CollectionMigration { .. } => 1,
        BatchOperationType::IndexRebuild { .. } => 1,
    }
}

/// How an operation is processed; unset settings take the processor's
/// defaults.
#[derive(Debug, Clone)]
pub struct BatchProcessingConfig {
    pub max_concurrency: Option<usize>,
    pub batch_size: Option<usize>,
    pub timeout_seconds: Option<u64>,
    pub continue_on_error: Option<bool>,
    pub max_retries: Option<u32>,
    pub progress_interval: Option<usize>,
    pub memory_limit_mb: Option<u64>,
}

/// The processing settings read from `env`, every one set.
pub open spec fn processing_config_from(env: Seq<(Seq<char>, Seq<char>)>, c: BatchProcessingConfig) -> bool {
    &&& c.max_concurrency == Some(env_number(env, "BATCH_MAX_CONCURRENCY"@, usize::MAX as nat, 10) as usize)
    &&& c.batch_size == Some(env_number(env, "BATCH_CHUNK_SIZE"@, usize::MAX as nat, 100) as usize)
    &&& c.timeout_seconds == Some(env_number(env, "BATCH_TIMEOUT_SECONDS"@, u64::MAX as nat, 3600) as u64)
    &&& c.continue_on_error == Some(env_flag(env, "BATCH_CONTINUE_ON_ERROR"@, true))
    &&& c.max_retries == Some(env_number(env, "BATCH_MAX_RETRIES"@, u32::MAX as nat, 3) as u32)
    &&& c.progress_interval == Some(env_number(env, "BATCH_PROGRESS_INTERVAL"@, usize::MAX as nat, 100) as usize)
    &&& c.memory_limit_mb == Some(env_number(env, "BATCH_MEMORY_LIMIT_MB"@, u64::MAX as nat, 1024) as u64)
}

impl BatchProcessingConfig {
    /// The settings from the given environment variables.
    pub fn from_env(env: &Vec<(String, String)>) -> (c: Self)
        ensures
            processing_config_from(env_view(env@), c),
    {
        BatchProcessingConfig {
            max_concurrency: Some(env_usize(env, "BATCH_MAX_CONCURRENCY", 10)),
            batch_size: Some(env_usize(env, "BATCH_CHUNK_SIZE", 100)),
            timeout_seconds: Some(env_u64(env, "BATCH_TIMEOUT_SECONDS", u64::MAX, 3600)),
            continue_on_error: Some(env_bool(env, "BATCH_CONTINUE_ON_ERROR", true)),
            max_retries: Some(env_u32(env, "BATCH_MAX_RETRIES", 3)),
            progress_interval: Some(env_usize(env, "BATCH_PROGRESS_INTERVAL", 100)),
            memory_limit_mb: Some(env_u64(env, "BATCH_MEMORY_LIMIT_MB", u64::MAX, 1024)),
        }
    }
}

impl Default for BatchProcessingConfig {
    /// The settings with no variable set.
    fn default() -> (c: Self)
        ensures
            processing_config_from(Seq::empty(), c),
    {
        let env: Vec<(String, String)> = Vec::new();
        assert(env_view(env@) =~= Seq::empty());
        BatchProcessingConfig::from_env(&env)
    }
}

/// Settings of the processor.
#[derive(Debug, Clone)]
pub struct BatchProcessorConfig {
    pub max_concurrent_operations: usize,
    pub default_batch_size: usize,
    pub default_timeout_seconds: u64,
    pub memory_monitor_interval_ms: u64,
    pub enable_progress_reporting: bool,
    pub cleanup_completed_operations_hours: u64,
}

/// The processor settings read from `env`.
pub open spec fn processor_config_from(env: Seq<(Seq<char>, Seq<char>)>, c: BatchProcessorConfig) -> bool {
    &&& c.max_concurrent_operations == env_number(env, "BATCH_PROCESSOR_MAX_OPERATIONS"@, usize::MAX as nat, 5)
    &&& c.default_batch_size == env_number(env, "BATCH_PROCESSOR_DEFAULT_BATCH_SIZE"@, usize::MAX as nat, 100)
    &&& c.default_timeout_seconds == env_number(env, "BATCH_PROCESSOR_DEFAULT_TIMEOUT"@, u64::MAX as nat, 3600)
    &&& c.memory_monitor_interval_ms == env_number(
        env,
        "BATCH_PROCESSOR_MEMORY_MONITOR_INTERVAL"@,
        u64::MAX as nat,
        5000,
    )
    &&& c.enable_progress_reporting == env_flag(env, "BATCH_PROCESSOR_PROGRESS_REPORTING"@, true)
    &&& c.cleanup_completed_operations_hours == env_number(env, "BATCH_PROCESSOR_CLEANUP_HOURS"@, u64::MAX as nat, 24)
}

impl BatchProcessorConfig {
    /// The settings from the given environment variables.
    pub fn from_env(env: &Vec<(String, String)>) -> (c: Self)
        ensures
            processor_config_from(env_view(env@), c),
    {
        BatchProcessorConfig {
            max_concurrent_operations: env_usize(env, "BATCH_PROCESSOR_MAX_OPERATIONS", 5),
            default_batch_size: env_usize(env, "BATCH_PROCESSOR_DEFAULT_BATCH_SIZE", 100),
            default_timeout_seconds: env_u64(env, "BATCH_PROCESSOR_DEFAULT_TIMEOUT", u64::MAX, 3600),
            memory_monitor_interval_ms: env_u64(env, "BATCH_PROCESSOR_MEMORY_MONITOR_INTERVAL", u64::MAX, 5000),
            enable_progress_reporting: env_bool(env, "BATCH_PROCESSOR_PROGRESS_REPORTING", true),
            cleanup_completed_operations_hours: env_u64(env, "BATCH_PROCESSOR_CLEANUP_HOURS", u64::MAX, 24),
        }
    }
}

impl Default for BatchProcessorConfig {
    /// The settings with no variable set.
    fn default() -> (c: Self)
        ensures
            processor_config_from(Seq::empty(), c),
    {
        let env: Vec<(String, String)> = Vec::new();
        assert(env_view(env@) =~= Seq::empty());
        BatchProcessorConfig::from_env(&env)
    }
}

/// A request to run an operation.
#[derive(Debug, Clone)]
pub struct BatchOperationRequest {
    pub operation_id: Option<String>,
    pub operation: BatchOperationType,
    pub config: BatchProcessingConfig,
    pub priority: Option<u8>,
    pub callback_url: Option<String>,
    /// Named values the caller attaches to the operation.
    pub metadata: Option<Vec<(String, serde_json::Value)>>,
}

/// Progress through an operation's items.
#[derive(Debug, Clone, Copy)]
pub struct BatchProgress {
    pub total_items: usize,
    pub processed_items: usize,
    pub successful_items: usize,
    pub failed_items: usize,
    pub processing_items: usize,
    pub estimated_remaining_seconds: Option<u64>,
}

/// The outcome of one search of a bulk search.
#[derive(Debug, Clone)]
pub struct SearchResultSummary {
    pub query: String,
    pub result_count: usize,
    pub processing_time_ms: u64,
}

/// The outcome of one vector of a bulk vector search.
#[derive(Debug, Clone)]
pub struct VectorSearchResultSummary {
    pub vector_index: usize,
    pub matches_found: usize,
    pub processing_time_ms: u64,
}

/// What an operation produced, by kind.
#[derive(Debug, Clone)]
pub enum BatchResults {
    BulkIndex { indexed_documents: Vec<String>, skipped_documents: Vec<String>, index_size_bytes: u64 },
    BulkUpdate { updated_documents: Vec<String>, skipped_documents: Vec<String> },
    BulkDelete { deleted_documents: Vec<String>, not_found_documents: Vec<String> },
    BulkSearch { search_results: Vec<SearchResultSummary>, total_results_found: usize },
    BulkVectorSearch { similarity_results: Vec<VectorSearchResultSummary>, total_matches_found: usize },
    CollectionMigration {
        migrated_documents: Vec<String>,
        failed_documents: Vec<String>,
        source_count: usize,
        target_count: usize,
    },
    IndexRebuild {
        rebuilt_indices: Vec<String>,
        optimization_applied: bool,
        index_size_before_bytes: u64,
        index_size_after_bytes: u64,
    },
}

/// Results of the same kind as `op`, with nothing in them yet.
pub open spec fn empty_results_for(op: BatchOperationType, r: BatchResults) -> bool {
    match op {
        BatchOperationType::BulkIndex { .. } => r matches BatchResults::BulkIndex { indexed_documents, skipped_documents, index_size_bytes }
            && indexed_documents@.len() == 0 && skipped_documents@.len() == 0 && index_size_bytes == 0,
        BatchOperationType::BulkUpdate { .. } => r matches BatchResults::BulkUpdate { updated_documents, skipped_documents }
            && updated_documents@.len() == 0 && skipped_documents@.len() == 0,
        BatchOperationType::BulkDelete { .. } => r matches BatchResults::BulkDelete { deleted_documents, not_found_documents }
            && deleted_documents@.len() == 0 && not_found_documents@.len() == 0,
        BatchOperationType::BulkSearch { .. } => r matches BatchResults::BulkSearch { search_results, total_results_found }
            && search_results@.len() == 0 && total_results_found == 0,
        BatchOperationType::BulkVectorSearch { .. } => r matches BatchResults::BulkVectorSearch { similarity_results, total_matches_found }
            && similarity_results@.len() == 0 && total_matches_found == 0,
        BatchOperationType::CollectionMigration { .. } => r matches BatchResults::CollectionMigration { migrated_documents, failed_documents, source_count, target_count }
            && migrated_documents@.len() == 0 && failed_documents@.len() == 0 && source_count == 0 && target_count == 0,
        BatchOperationType::IndexRebuild { .. } => r matches BatchResults::IndexRebuild { rebuilt_indices, optimization_applied, index_size_before_bytes, index_size_after_bytes }
            && rebuilt_indices@.len() == 0 && !optimization_applied && index_size_before_bytes == 0 && index_size_after_bytes == 0,
    }
}

/// An error met while processing an item.
#[derive(Debug, Clone)]
pub struct BatchError {
    pub item_id: String,
    pub error_type: String,
    pub message: String,
    pub code: Option<String>,
    pub retry_count: u32,
    pub occurred_at: u64,
}

/// An operation's record: where it stands and what it produced.
#[derive(Debug, Clone)]
pub struct BatchOperationResult {
    pub operation_id: String,
    pub status: BatchOperationStatus,
    pub progress: BatchProgress,
    pub total_processing_time_ms: u64,
    pub results: BatchResults,
    pub errors: Vec<BatchError>,
    pub started_at: u64,
    pub completed_at: Option<u64>,
    /// The named values attached by the request (none when it attached none).
    pub metadata: Vec<(String, serde_json::Value)>,
}

/// Why a request about an operation was refused.
#[derive(Debug, Clone)]
pub enum BatchOperationError {
    /// No operation has this id.
    NotFound { operation_id: String },
    /// The operation is past the point where it could be cancelled.
    CannotCancel { status: BatchOperationStatus },
}

impl BatchOperationError {
    /// The error's message.
    pub fn message(&self) -> (r: String)
        ensures
            match self {
                BatchOperationError::NotFound { operation_id } => r@ == "Operation '"@ + operation_id@ + "' not found"@,
                BatchOperationError::CannotCancel { status } => r@ == "Cannot cancel operation in status: "@ + status_name(*status),
            },
    {
        match self {
            BatchOperationError::NotFound { operation_id } => {
                let mut r = "Operation '".to_owned();
                crate::text::push_str(&mut r, operation_id.as_str());
                crate::text::push_str(&mut r, "' not found");
                r
            },
            BatchOperationError::CannotCancel { status } => {
                let mut r = "Cannot cancel operation in status: ".to_owned();
                crate::text::push_str(&mut r, status.name());
                r
            },
        }
    }
}


/// Some record has id `id`.
pub open spec fn has_op(ops: Seq<BatchOperationResult>, id: Seq<char>) -> bool {
    exists|i: int| 0 <= i < ops.len() && #[trigger] ops[i].operation_id@ == id
}

/// No id occurs twice.
pub open spec fn unique_ops(ops: Seq<BatchOperationResult>) -> bool {
    forall|i: int, j: int| 0 <= i < ops.len() && 0 <= j < ops.len() && i != j ==> ops[i].operation_id@ != ops[j].operation_id@
}

/// The records with `rec` stored under its id: in place of the record with
/// that id, or appended.
pub open spec fn store_op(ops: Seq<BatchOperationResult>, rec: BatchOperationResult) -> Seq<BatchOperationResult> {
    if has_op(ops, rec.operation_id@) {
        let i = choose|i: int| 0 <= i < ops.len() && #[trigger] ops[i].operation_id@ == rec.operation_id@;
        ops.update(i, rec)
    } else {
        ops.push(rec)
    }
}

/// After `rec` is stored, some record has its id.
pub proof fn lemma_store_op_has(ops: Seq<BatchOperationResult>, rec: BatchOperationResult)
    ensures
        has_op(store_op(ops, rec), rec.operation_id@),
{
    let stored = store_op(ops, rec);
    if has_op(ops, rec.operation_id@) {
        let i = choose|i: int| 0 <= i < ops.len() && #[trigger] ops[i].operation_id@ == rec.operation_id@;
        assert(stored[i].operation_id@ == rec.operation_id@);
    } else {
        assert(stored[ops.len() as int].operation_id@ == rec.operation_id@);
    }
}

/// What submitting `request` to processor `p` does, `after` being the
/// processor afterwards and `r` the answer: the settings stay; the answer
/// holds the operation's id (the one the request names, or one made from the
/// clock reading and a random UUID) and the request with the processor's
/// defaults applied; a fresh queued record for it is stored under that id.
pub open spec fn submission_outcome(
    p: BatchProcessor,
    after: BatchProcessor,
    request: BatchOperationRequest,
    r: (String, BatchOperationRequest),
) -> bool {
    &&& after.settings() == p.settings()
    &&& r.1.config == p.apply_defaults_spec(request.config)
    &&& r.1.operation_id == request.operation_id
    &&& r.1.operation == request.operation
    &&& r.1.priority == request.priority
    &&& r.1.callback_url == request.callback_url
    &&& r.1.metadata == request.metadata
    &&& exists|timestamp: i64, uuid: Seq<char>, rec: BatchOperationResult|
        #![trigger queued_record(rec, r.0@, request.operation, request.metadata, timestamp), uuid.len()]
    {
        &&& uuid.len() == 36
        &&& r.0@ == match request.operation_id {
            Some(id) => id@,
            None => generated_id(timestamp as int, uuid),
        }
        &&& queued_record(rec, r.0@, request.operation, request.metadata, timestamp)
        &&& after.ops() == store_op(p.ops(), rec)
    }
}

/// The id an operation gets when its request names none: `batch_`, the
/// timestamp, `_` and the first eight characters of a random UUID.
pub open spec fn generated_id(timestamp: int, uuid: Seq<char>) -> Seq<char> {
    "batch_"@ + signed_decimal(timestamp) + "_"@ + uuid.take(8)
}

/// The named values a record keeps of a request's `metadata`: those given,
/// or none.
pub open spec fn kept_metadata(metadata: Option<Vec<(String, serde_json::Value)>>) -> Seq<(String, serde_json::Value)> {
    match metadata {
        Some(m) => m@,
        None => Seq::empty(),
    }
}

/// A fresh record for `op` with `metadata` under `id`, queued at `timestamp`.
pub open spec fn queued_record(
    rec: BatchOperationResult,
    id: Seq<char>,
    op: BatchOperationType,
    metadata: Option<Vec<(String, serde_json::Value)>>,
    timestamp: i64,
) -> bool {
    &&& rec.operation_id@ == id
    &&& rec.metadata@ == kept_metadata(metadata)
    &&& rec.status == BatchOperationStatus::Queued
    &&& rec.progress == (BatchProgress {
        total_items: total_items_of(op) as usize,
        processed_items: 0,
        successful_items: 0,
        failed_items: 0,
        processing_items: 0,
        estimated_remaining_seconds: None,
    })
    &&& rec.total_processing_time_ms == 0
    &&& empty_results_for(op, rec.results)
    &&& rec.errors@.len() == 0
    &&& rec.started_at == timestamp as u64
    &&& rec.completed_at is None
}

/// What cancelling `id` at `now` does: an unknown id is refused as not
/// found; a queued or running operation becomes cancelled, finished at `now`;
/// any other status is refused. A refusal changes nothing.
pub open spec fn cancel_outcome(
    ops: Seq<BatchOperationResult>,
    after: Seq<BatchOperationResult>,
    id: Seq<char>,
    now: u64,
    r: Result<(), BatchOperationError>,
) -> bool {
    &&& !has_op(ops, id) ==> after == ops && (r matches Err(BatchOperationError::NotFound { operation_id })
        && operation_id@ == id)
    &&& forall|i: int|
        0 <= i < ops.len() && #[trigger] ops[i].operation_id@ == id ==> if cancellable(ops[i].status) {
            r is Ok && after == ops.update(
                i,
                BatchOperationResult { status: BatchOperationStatus::Cancelled, completed_at: Some(now), ..ops[i] },
            )
        } else {
            after == ops && r == Err::<(), BatchOperationError>(
                BatchOperationError::CannotCancel { status: ops[i].status },
            )
        }
}

/// What cleaning up as the clock reads `ts` does, with a window of `hours`:
/// before the epoch or before the window nothing changes and `None` comes
/// back; otherwise the operations finished before `ts` less the window are
/// removed and their ids come back.
pub open spec fn cleanup_outcome(
    ops: Seq<BatchOperationResult>,
    after: Seq<BatchOperationResult>,
    hours: u64,
    ts: i64,
    removed: Option<Vec<String>>,
) -> bool {
    if ts < 0 || hours * 3600 > ts {
        removed is None && after == ops
    } else {
        &&& removed is Some
        &&& after == kept_after_cleanup(ops, (ts - hours * 3600) as u64)
        &&& string_views(removed->0@) == removed_by_cleanup(ops, (ts - hours * 3600) as u64)
    }
}

/// The estimate of the seconds left: the items left at the rate observed so
/// far, rounded down (saturating at `u64::MAX`).
pub open spec fn remaining_estimate(total: nat, processed: nat, elapsed_ms: nat) -> u64 {
    let q = (total - processed) * elapsed_ms / ((processed * 1000) as int);
    if q > u64::MAX { u64::MAX } else { q as u64 }
}

/// The progress after `processed` items (`successful` of them well, `failed`
/// not) at `now`: the counts, and a new estimate when items were processed
/// and time has passed.
pub open spec fn progress_after(p: BatchProgress, started_at: u64, processed: usize, successful: usize, failed: usize, now: u64) -> BatchProgress {
    let elapsed_ms = now * 1000 - started_at * 1000;
    BatchProgress {
        processed_items: processed,
        successful_items: successful,
        failed_items: failed,
        estimated_remaining_seconds: if processed > 0 && elapsed_ms > 0 {
            Some(remaining_estimate(p.total_items as nat, processed as nat, elapsed_ms as nat))
        } else {
            p.estimated_remaining_seconds
        },
        ..p
    }
}

/// A progress update on the record under `id` at `now` is well defined: the
/// clock has not gone back since it started, the time in milliseconds fits,
/// and no more items are processed than there are.
pub open spec fn progress_update_ok(ops: Seq<BatchOperationResult>, id: Seq<char>, processed: usize, now: u64) -> bool {
    forall|i: int| 0 <= i < ops.len() && #[trigger] ops[i].operation_id@ == id ==> {
        &&& ops[i].started_at <= now
        &&& now * 1000 <= u64::MAX
        &&& (processed > 0 && now > ops[i].started_at ==> processed <= ops[i].progress.total_items)
    }
}

/// The records the cleanup keeps: those not finished, or finished at or after
/// `cutoff` (a record without a completion time counts as finished at 0).
pub open spec fn kept_after_cleanup(ops: Seq<BatchOperationResult>, cutoff: u64) -> Seq<BatchOperationResult>
    decreases ops.len(),
{
    if ops.len() == 0 {
        ops
    } else if cleanup_due(ops.last(), cutoff) {
        kept_after_cleanup(ops.drop_last(), cutoff)
    } else {
        kept_after_cleanup(ops.drop_last(), cutoff).push(ops.last())
    }
}

/// The cleanup removes a record that is finished and completed before
/// `cutoff`.
pub open spec fn cleanup_due(rec: BatchOperationResult, cutoff: u64) -> bool {
    cleanable(rec.status) && (match rec.completed_at {
        Some(t) => t,
        None => 0,
    }) < cutoff
}

/// The ids of the records the cleanup removes, in order.
pub open spec fn removed_by_cleanup(ops: Seq<BatchOperationResult>, cutoff: u64) -> Seq<Seq<char>>
    decreases ops.len(),
{
    if ops.len() == 0 {
        Seq::empty()
    } else if cleanup_due(ops.last(), cutoff) {
        removed_by_cleanup(ops.drop_last(), cutoff).push(ops.last().operation_id@)
    } else {
        removed_by_cleanup(ops.drop_last(), cutoff)
    }
}

/// Changing a record without changing its id keeps ids unique.
pub proof fn lemma_update_unique(ops: Seq<BatchOperationResult>, i: int, rec: BatchOperationResult)
    requires
        unique_ops(ops),
        0 <= i < ops.len(),
        rec.operation_id@ == ops[i].operation_id@,
    ensures
        unique_ops(ops.update(i, rec)),
{
    let n = ops.update(i, rec);
    assert forall|a: int, b: int| 0 <= a < n.len() && 0 <= b < n.len() && a != b implies n[a].operation_id@ != n[b].operation_id@ by {
        assert(n[a].operation_id@ == ops[a].operation_id@);
        assert(n[b].operation_id@ == ops[b].operation_id@);
    }
}

/// What the cleanup keeps of a list with unique ids has unique ids.
proof fn lemma_kept_unique(ops: Seq<BatchOperationResult>, cutoff: u64)
    requires
        unique_ops(ops),
    ensures
        unique_ops(kept_after_cleanup(ops, cutoff)),
        forall|k: int| 0 <= k < kept_after_cleanup(ops, cutoff).len() ==> ops.contains(#[trigger] kept_after_cleanup(ops, cutoff)[k]),
    decreases ops.len(),
{
    if ops.len() > 0 {
        let prev = ops.drop_last();
        assert(unique_ops(prev)) by {
            assert forall|a: int, b: int| 0 <= a < prev.len() && 0 <= b < prev.len() && a != b implies prev[a].operation_id@ != prev[b].operation_id@ by {
                assert(prev[a] == ops[a]);
                assert(prev[b] == ops[b]);
            }
        }
        lemma_kept_unique(prev, cutoff);
        let kp = kept_after_cleanup(prev, cutoff);
        let k = kept_after_cleanup(ops, cutoff);
        assert forall|x: int| 0 <= x < k.len() implies ops.contains(#[trigger] k[x]) by {
            if x < kp.len() {
                assert(k[x] == kp[x]);
                assert(prev.contains(kp[x]));
                let m = choose|m: int| 0 <= m < prev.len() && prev[m] == kp[x];
                assert(ops[m] == prev[m]);
            } else {
                assert(k[x] == ops[ops.len() - 1]);
            }
        }
        if !cleanup_due(ops.last(), cutoff) {
            assert forall|a: int, b: int| 0 <= a < k.len() && 0 <= b < k.len() && a != b implies k[a].operation_id@ != k[b].operation_id@ by {
                if a < kp.len() && b < kp.len() {
                    assert(k[a] == kp[a]);
                    assert(k[b] == kp[b]);
                } else {
                    let x = if a < kp.len() { a } else { b };
                    assert(k[x] == kp[x]);
                    assert(prev.contains(kp[x]));
                    let m = choose|m: int| 0 <= m < prev.len() && prev[m] == kp[x];
                    assert(ops[m] == prev[m]);
                    assert(m != ops.len() - 1);
                }
            }
        }
    }
}

/// Counts of the items of a bulk operation processed so far.
#[derive(Debug, Clone, Copy)]
pub struct BulkCounter {
    pub processed: usize,
    pub successful: usize,
    pub failed: usize,
}

impl BulkCounter {
    /// No items processed.
    pub fn new() -> (c: Self)
        ensures
            c.processed == 0 && c.successful == 0 && c.failed == 0,
    {
        BulkCounter { processed: 0, successful: 0, failed: 0 }
    }
}

/// Names for `n` items: the prefix followed by 0, 1, ..., `n - 1`.
pub open spec fn numbered(prefix: Seq<char>, n: nat) -> Seq<Seq<char>> {
    Seq::new(n, |i: int| prefix + decimal(i as nat))
}

/// `prefix0`, `prefix1`, ..., one name for each of `n` items.
pub fn numbered_names(prefix: &str, n: usize) -> (r: Vec<String>)
    ensures
        string_views(r@) == numbered(prefix@, n as nat),
{
    let mut r: Vec<String> = Vec::new();
    let mut i: usize = 0;
    while i < n
        invariant
            i <= n,
            string_views(r@) == numbered(prefix@, i as nat),
        decreases n - i,
    {
        let mut v = chars_of(prefix);
        push_decimal(&mut v, i as u64);
        let name = string_from_chars(&v);
        let ghost before = r@;
        assert(name@ == prefix@ + decimal(i as nat));
        r.push(name);
        assert(string_views(r@) =~= string_views(before).push(prefix@ + decimal(i as nat)));
        assert(string_views(r@) =~= numbered(prefix@, (i + 1) as nat));
        i = i + 1;
    }
    r
}

/// Tracks batch operations by id.
pub struct BatchProcessor {
    operations: Vec<BatchOperationResult>,
    config: BatchProcessorConfig,
}

impl BatchProcessor {
    #[verifier::type_invariant]
    spec fn inv(self) -> bool {
        unique_ops(self.operations@)
    }

    /// The records, in the order they were first submitted.
    pub closed spec fn ops(&self) -> Seq<BatchOperationResult> {
        self.operations@
    }

    /// The settings.
    pub closed spec fn settings(&self) -> BatchProcessorConfig {
        self.config
    }

    /// A processor with no operations.
    pub fn new(config: BatchProcessorConfig) -> (p: Self)
        ensures
            p.ops() == Seq::<BatchOperationResult>::empty(),
            p.settings() == config,
    {
        BatchProcessor { operations: Vec::new(), config }
    }

    /// The number of items `op` works through.
    pub fn calculate_total_items(&self, op: &BatchOperationType) -> (n: usize)
        ensures
            n == total_items_of(*op),
    {
        match op {
            BatchOperationType::BulkIndex { document_ids, .. } => document_ids.len(),
            BatchOperationType::BulkUpdate { document_ids, .. } => document_ids.len(),
            BatchOperationType::BulkDelete { document_ids, .. } => document_ids.len(),
            BatchOperationType::BulkSearch { queries, .. } => queries.len(),
            BatchOperationType::BulkVectorSearch { vector_count, .. } => *vector_count,
            BatchOperationType::CollectionMigration { .. } => 1,
            BatchOperationType::IndexRebuild { .. } => 1,
        }
    }

    /// Empty results of the kind of `op`.
    pub fn create_empty_results(&self, op: &BatchOperationType) -> (r: BatchResults)
        ensures
            empty_results_for(*op, r),
    {
        match op {
            BatchOperationType::BulkIndex { .. } => BatchResults::BulkIndex {
                indexed_documents: Vec::new(),
                skipped_documents: Vec::new(),
                index_size_bytes: 0,
            },
            BatchOperationType::BulkUpdate { .. } => BatchResults::BulkUpdate {
                updated_documents: Vec::new(),
                skipped_documents: Vec::new(),
            },
            BatchOperationType::BulkDelete { .. } => BatchResults::BulkDelete {
                deleted_documents: Vec::new(),
                not_found_documents: Vec::new(),
            },
            BatchOperationType::BulkSearch { .. } => BatchResults::BulkSearch {
                search_results: Vec::new(),
                total_results_found: 0,
            },
            BatchOperationType::BulkVectorSearch { .. } => BatchResults::BulkVectorSearch {
                similarity_results: Vec::new(),
                total_matches_found: 0,
            },
            BatchOperationType::CollectionMigration { .. } => BatchResults::CollectionMigration {
                migrated_documents: Vec::new(),
                failed_documents: Vec::new(),
                source_count: 0,
                target_count: 0,
            },
            BatchOperationType::IndexRebuild { .. } => BatchResults::IndexRebuild {
                rebuilt_indices: Vec::new(),
                optimization_applied: false,
                index_size_before_bytes: 0,
                index_size_after_bytes: 0,
            },
        }
    }

    /// The settings of a request with the processor's defaults filled in.
    pub open spec fn apply_defaults_spec(&self, config: BatchProcessingConfig) -> BatchProcessingConfig {
        BatchProcessingConfig {
            max_concurrency: Some(
                match config.max_concurrency {
                    Some(v) => v,
                    None => self.settings().max_concurrent_operations,
                },
            ),
            batch_size: Some(
                match config.batch_size {
                    Some(v) => v,
                    None => self.settings().default_batch_size,
                },
            ),
            timeout_seconds: Some(
                match config.timeout_seconds {
                    Some(v) => v,
                    None => self.settings().default_timeout_seconds,
                },
            ),
            ..config
        }
    }

    /// The settings of a request with the processor's defaults in place of
    /// an unset concurrency, batch size or timeout.
    pub fn apply_defaults(&self, config: BatchProcessingConfig) -> (c: BatchProcessingConfig)
        ensures
            c == (BatchProcessingConfig {
                max_concurrency: Some(
                    match config.max_concurrency {
                        Some(v) => v,
                        None => self.settings().max_concurrent_operations,
                    },
                ),
                batch_size: Some(
                    match config.batch_size {
                        Some(v) => v,
                        None => self.settings().default_batch_size,
                    },
                ),
                timeout_seconds: Some(
                    match config.timeout_seconds {
                        Some(v) => v,
                        None => self.settings().default_timeout_seconds,
                    },
                ),
                ..config
            }),
    {
        let mut c = config;
        if c.max_concurrency.is_none() {
            c.max_concurrency = Some(self.config.max_concurrent_operations);
        }
        if c.batch_size.is_none() {
            c.batch_size = Some(self.config.default_batch_size);
        }
        if c.timeout_seconds.is_none() {
            c.timeout_seconds = Some(self.config.default_timeout_seconds);
        }
        c
    }

    /// The index of the record with id `id`.
    fn position(&self, id: &str) -> (r: Option<usize>)
        ensures
            match r {
                Some(i) => i < self.ops().len() && self.ops()[i as int].operation_id@ == id@,
                None => !has_op(self.ops(), id@),
            },
    {
        let mut i: usize = 0;
        while i < self.operations.len()
            invariant
                i <= self.operations.len(),
                forall|k: int| 0 <= k < i ==> self.operations@[k].operation_id@ != id@,
            decreases self.operations.len() - i,
        {
            if crate::text::str_eq(self.operations[i].operation_id.as_str(), id) {
                return Some(i);
            }
            i = i + 1;
        }
        None
    }

    /// Moves the records out, leaving none.
    fn take_ops(&mut self) -> (ops: Vec<BatchOperationResult>)
        ensures
            ops@ == old(self).ops(),
            unique_ops(ops@),
            final(self).ops() == Seq::<BatchOperationResult>::empty(),
            final(self).settings() == old(self).settings(),
    {
        proof {
            use_type_invariant(&*self);
        }
        let mut ops: Vec<BatchOperationResult> = Vec::new();
        std::mem::swap(&mut ops, &mut self.operations);
        ops
    }

    /// Puts records back.
    fn put_ops(&mut self, ops: Vec<BatchOperationResult>)
        requires
            unique_ops(ops@),
        ensures
            final(self).ops() == ops@,
            final(self).settings() == old(self).settings(),
    {
        self.operations = ops;
    }

    /// The id for a request naming none, from a timestamp and a UUID.
    pub fn generated_operation_id(timestamp: i64, uuid: &str) -> (r: String)
        requires
            uuid@.len() >= 8,
        ensures
            r@ == generated_id(timestamp as int, uuid@),
    {
        let mut v: Vec<char> = Vec::new();
        v.push('b');
        v.push('a');
        v.push('t');
        v.push('c');
        v.push('h');
        v.push('_');
        push_signed_decimal(&mut v, timestamp);
        v.push('_');
        let u = chars_of(uuid);
        let mut i: usize = 0;
        let ghost base = v@;
        while i < 8
            invariant
                i <= 8,
                u@ == uuid@,
                u@.len() >= 8,
                v@ == base + u@.take(i as int),
            decreases 8 - i,
        {
            v.push(u[i]);
            assert(u@.take(i + 1) == u@.take(i as int).push(u@[i as int]));
            i = i + 1;
        }
        proof {
            reveal_strlit("batch_");
            reveal_strlit("_");
            assert(v@ =~= generated_id(timestamp as int, uuid@));
        }
        string_from_chars(&v)
    }

    /// Registers `request` at `timestamp` as a queued operation, under the id
    /// it names or else an id made from the timestamp and `uuid`; a record
    /// already under that id is replaced. Returns the id and the request with
    /// the processor's defaults applied, ready to be processed.
    pub fn submit_operation_at(&mut self, request: BatchOperationRequest, timestamp: i64, uuid: &str) -> (r: (String, BatchOperationRequest))
        requires
            uuid@.len() >= 8,
        ensures
            r.0@ == match request.operation_id {
                Some(id) => id@,
                None => generated_id(timestamp as int, uuid@),
            },
            r.1.config == old(self).apply_defaults_spec(request.config),
            r.1.operation_id == request.operation_id,
            r.1.operation == request.operation,
            r.1.priority == request.priority,
            r.1.callback_url == request.callback_url,
            r.1.metadata == request.metadata,
            final(self).settings() == old(self).settings(),
            exists|rec: BatchOperationResult|
                queued_record(rec, r.0@, request.operation, request.metadata, timestamp) && final(self).ops() == store_op(old(self).ops(), rec),
    {
        let operation_id: String = match &request.operation_id {
            Some(id) => id.clone(),
            None => BatchProcessor::generated_operation_id(timestamp, uuid),
        };
        let total_items = self.calculate_total_items(&request.operation);
        let results = self.create_empty_results(&request.operation);
        let rec = BatchOperationResult {
            operation_id: operation_id.clone(),
            status: BatchOperationStatus::Queued,
            progress: BatchProgress {
                total_items,
                processed_items: 0,
                successful_items: 0,
                failed_items: 0,
                processing_items: 0,
                estimated_remaining_seconds: None,
            },
            total_processing_time_ms: 0,
            results,
            errors: Vec::new(),
            started_at: timestamp as u64,
            completed_at: None,
            metadata: match &request.metadata {
                Some(m) => copy_fields(m),
                None => Vec::new(),
            },
        };
        let ghost r0 = rec;
        let found = self.position(operation_id.as_str());
        let mut ops = self.take_ops();
        let ghost before = ops@;
        match found {
            Some(i) => {
                proof {
                    let c = choose|c: int| 0 <= c < before.len() && #[trigger] before[c].operation_id@ == r0.operation_id@;
                    assert(c == i);
                    lemma_update_unique(before, i as int, r0);
                }
                ops.set(i, rec);
            },
            None => {
                ops.push(rec);
                assert forall|a: int, b: int| 0 <= a < ops@.len() && 0 <= b < ops@.len() && a != b implies ops@[a].operation_id@ != ops@[b].operation_id@ by {
                    if a < before.len() {
                        assert(ops@[a] == before[a]);
                    }
                    if b < before.len() {
                        assert(ops@[b] == before[b]);
                    }
                }
            },
        }
        assert(ops@ == store_op(before, r0));
        self.put_ops(ops);
        let config = self.apply_defaults(request.config);
        let prepared = BatchOperationRequest {
            operation_id: request.operation_id,
            operation: request.operation,
            config,
            priority: request.priority,
            callback_url: request.callback_url,
            metadata: request.metadata,
        };
        (operation_id, prepared)
    }

    /// Registers `request` now, as `submit_operation_at` does with the
    /// current time and a fresh random UUID.
    pub fn submit_operation(&mut self, request: BatchOperationRequest) -> (r: (String, BatchOperationRequest))
        ensures
            submission_outcome(*old(self), *final(self), request, r),
            has_op(final(self).ops(), r.0@),
    {
        let ghost req = request;
        let timestamp = unix_timestamp();
        let uuid = uuid_v4_string();
        let r = self.submit_operation_at(request, timestamp, uuid.as_str());
        proof {
            let rec = choose|rec: BatchOperationResult|
                queued_record(rec, r.0@, req.operation, req.metadata, timestamp) && self.ops() == store_op(old(self).ops(), rec);
            lemma_store_op_has(old(self).ops(), rec);
            assert(queued_record(rec, r.0@, req.operation, req.metadata, timestamp));
            assert(uuid@.len() == 36);
        }
        r
    }

    /// The record of operation `id`.
    pub fn get_operation_status(&self, id: &str) -> (r: Option<&BatchOperationResult>)
        ensures
            match r {
                Some(rec) => has_op(self.ops(), id@) && rec.operation_id@ == id@ && self.ops().contains(*rec),
                None => !has_op(self.ops(), id@),
            },
    {
        match self.position(id) {
            Some(i) => Some(&self.operations[i]),
            None => None,
        }
    }

    /// Every record.
    pub fn list_operations(&self) -> (r: &Vec<BatchOperationResult>)
        ensures
            r@ == self.ops(),
    {
        &self.operations
    }

    /// Cancels operation `id` at `now` when it is queued or running; an
    /// unknown id and any other status are refused, and nothing changes.
    pub fn cancel_operation_at(&mut self, id: &str, now: u64) -> (r: Result<(), BatchOperationError>)
        ensures
            final(self).settings() == old(self).settings(),
            cancel_outcome(old(self).ops(), final(self).ops(), id@, now, r),
    {
        proof {
            use_type_invariant(&*self);
        }
        match self.position(id) {
            None => Err(BatchOperationError::NotFound { operation_id: id.to_owned() }),
            Some(i) => {
                let status = self.operations[i].status;
                if status == BatchOperationStatus::Queued || status == BatchOperationStatus::Running {
                    let mut ops = self.take_ops();
                    let ghost before = ops@;
                    let mut rec = ops.remove(i);
                    rec.status = BatchOperationStatus::Cancelled;
                    rec.completed_at = Some(now);
                    let ghost r1 = rec;
                    ops.insert(i, rec);
                    proof {
                        assert(ops@ =~= before.update(i as int, r1));
                        lemma_update_unique(before, i as int, r1);
                        assert forall|j: int| 0 <= j < before.len() && #[trigger] before[j].operation_id@ == id@ implies j == i by {}
                    }
                    self.put_ops(ops);
                    Ok(())
                } else {
                    proof {
                        assert forall|j: int| 0 <= j < self.ops().len() && #[trigger] self.ops()[j].operation_id@ == id@ implies j == i by {}
                    }
                    Err(BatchOperationError::CannotCancel { status })
                }
            },
        }
    }

    /// Cancels operation `id` now, as `cancel_operation_at` does with the
    /// current time.
    pub fn cancel_operation(&mut self, id: &str) -> (r: Result<(), BatchOperationError>)
        ensures
            final(self).settings() == old(self).settings(),
            exists|now: u64| #[trigger] cancel_outcome(old(self).ops(), final(self).ops(), id@, now, r),
    {
        let now = unix_timestamp() as u64;
        let r = self.cancel_operation_at(id, now);
        assert(cancel_outcome(old(self).ops(), self.ops(), id@, now, r));
        r
    }

    /// Marks operation `id` as running (when there is such an operation and
    /// it was not cancelled).
    pub fn mark_running(&mut self, id: &str)
        ensures
            final(self).settings() == old(self).settings(),
            !has_op(old(self).ops(), id@) ==> final(self).ops() == old(self).ops(),
            forall|i: int|
                0 <= i < old(self).ops().len() && #[trigger] old(self).ops()[i].operation_id@ == id@
                    ==> final(self).ops() == old(self).ops().update(
                    i,
                    BatchOperationResult { status: started_status(old(self).ops()[i].status), ..old(self).ops()[i] },
                ),
    {
        proof {
            use_type_invariant(&*self);
        }
        if let Some(i) = self.position(id) {
            let mut ops = self.take_ops();
            let ghost before = ops@;
            let mut rec = ops.remove(i);
            if rec.status != BatchOperationStatus::Cancelled {
                rec.status = BatchOperationStatus::Running;
            }
            let ghost r1 = rec;
            ops.insert(i, rec);
            proof {
                assert(ops@ =~= before.update(i as int, r1));
                lemma_update_unique(before, i as int, r1);
                assert forall|j: int| 0 <= j < before.len() && #[trigger] before[j].operation_id@ == id@ implies j == i by {}
            }
            self.put_ops(ops);
        }
    }

    /// Adds `error` to the errors of operation `id`.
    pub fn record_error(&mut self, id: &str, error: BatchError)
        ensures
            final(self).settings() == old(self).settings(),
            !has_op(old(self).ops(), id@) ==> final(self).ops() == old(self).ops(),
            forall|i: int|
                0 <= i < old(self).ops().len() && #[trigger] old(self).ops()[i].operation_id@ == id@ ==> {
                    &&& final(self).ops().len() == old(self).ops().len()
                    &&& forall|j: int| 0 <= j < old(self).ops().len() && j != i ==> final(self).ops()[j] == old(self).ops()[j]
                    &&& final(self).ops()[i].errors@ == old(self).ops()[i].errors@.push(error)
                    &&& final(self).ops()[i] == (BatchOperationResult { errors: final(self).ops()[i].errors, ..old(self).ops()[i] })
                },
    {
        proof {
            use_type_invariant(&*self);
        }
        if let Some(i) = self.position(id) {
            let mut ops = self.take_ops();
            let ghost before = ops@;
            let mut rec = ops.remove(i);
            rec.errors.push(error);
            let ghost r1 = rec;
            ops.insert(i, rec);
            proof {
                assert(ops@ =~= before.update(i as int, r1));
                lemma_update_unique(before, i as int, r1);
                assert forall|j: int| 0 <= j < before.len() && #[trigger] before[j].operation_id@ == id@ implies j == i by {}
            }
            self.put_ops(ops);
        }
    }

    /// Records the progress of operation `id` at `now`: `processed` items, of
    /// which `successful` went well and `failed` not, and a new estimate of
    /// the time left.
    pub fn update_progress_at(&mut self, id: &str, processed: usize, successful: usize, failed: usize, now: u64)
        requires
            progress_update_ok(old(self).ops(), id@, processed, now),
        ensures
            final(self).settings() == old(self).settings(),
            !has_op(old(self).ops(), id@) ==> final(self).ops() == old(self).ops(),
            forall|i: int|
                0 <= i < old(self).ops().len() && #[trigger] old(self).ops()[i].operation_id@ == id@
                    ==> final(self).ops() == old(self).ops().update(
                    i,
                    BatchOperationResult {
                        progress: progress_after(
                            old(self).ops()[i].progress,
                            old(self).ops()[i].started_at,
                            processed,
                            successful,
                            failed,
                            now,
                        ),
                        ..old(self).ops()[i]
                    },
                ),
    {
        proof {
            use_type_invariant(&*self);
        }
        if let Some(i) = self.position(id) {
            let mut ops = self.take_ops();
            let ghost before = ops@;
            let mut rec = ops.remove(i);
            let total = rec.progress.total_items;
            rec.progress.processed_items = processed;
            rec.progress.successful_items = successful;
            rec.progress.failed_items = failed;
            let elapsed_ms: u64 = now * 1000 - rec.started_at * 1000;
            if processed > 0 && elapsed_ms > 0 {
                let remaining: u128 = (total - processed) as u128;
                assert(remaining * (elapsed_ms as u128) <= 0xffff_ffff_ffff_ffff * 0xffff_ffff_ffff_ffffu128) by (nonlinear_arith)
                    requires
                        remaining <= 0xffff_ffff_ffff_ffffu128,
                        elapsed_ms <= 0xffff_ffff_ffff_ffffu64,
                ;
                let q: u128 = remaining * elapsed_ms as u128 / (processed as u128 * 1000);
                let est: u64 = if q > u64::MAX as u128 {
                    u64::MAX
                } else {
                    q as u64
                };
                rec.progress.estimated_remaining_seconds = Some(est);
            }
            let ghost r1 = rec;
            ops.insert(i, rec);
            proof {
                assert(ops@ =~= before.update(i as int, r1));
                lemma_update_unique(before, i as int, r1);
                assert forall|j: int| 0 <= j < before.len() && #[trigger] before[j].operation_id@ == id@ implies j == i by {}
            }
            self.put_ops(ops);
        }
    }

    /// Closes operation `id` at `now`, after `elapsed_ms` of processing: its
    /// final status follows from whether processing went through and whether
    /// errors were recorded, unless it was cancelled, which it stays.
    pub fn finish_operation_at(&mut self, id: &str, ok: bool, now: u64, elapsed_ms: u64)
        ensures
            final(self).settings() == old(self).settings(),
            !has_op(old(self).ops(), id@) ==> final(self).ops() == old(self).ops(),
            forall|i: int|
                0 <= i < old(self).ops().len() && #[trigger] old(self).ops()[i].operation_id@ == id@
                    ==> final(self).ops() == old(self).ops().update(
                    i,
                    BatchOperationResult {
                        status: settled_status(old(self).ops()[i].status, ok, old(self).ops()[i].errors@.len()),
                        completed_at: Some(now),
                        total_processing_time_ms: elapsed_ms,
                        ..old(self).ops()[i]
                    },
                ),
    {
        proof {
            use_type_invariant(&*self);
        }
        if let Some(i) = self.position(id) {
            let mut ops = self.take_ops();
            let ghost before = ops@;
            let mut rec = ops.remove(i);
            rec.status = if rec.status == BatchOperationStatus::Cancelled {
                BatchOperationStatus::Cancelled
            } else if !ok {
                BatchOperationStatus::Failed
            } else if rec.errors.len() == 0 {
                BatchOperationStatus::Completed
            } else {
                BatchOperationStatus::CompletedWithErrors
            };
            rec.completed_at = Some(now);
            rec.total_processing_time_ms = elapsed_ms;
            let ghost r1 = rec;
            ops.insert(i, rec);
            proof {
                assert(ops@ =~= before.update(i as int, r1));
                lemma_update_unique(before, i as int, r1);
                assert forall|j: int| 0 <= j < before.len() && #[trigger] before[j].operation_id@ == id@ implies j == i by {}
            }
            self.put_ops(ops);
        }
    }

    /// Marks operation `id` failed at `now` because processing broke off with
    /// `message`, recorded as an error of the whole operation; a cancelled
    /// operation stays cancelled.
    pub fn fail_operation_at(&mut self, id: &str, message: String, now: u64)
        ensures
            final(self).settings() == old(self).settings(),
            !has_op(old(self).ops(), id@) ==> final(self).ops() == old(self).ops(),
            forall|i: int|
                0 <= i < old(self).ops().len() && #[trigger] old(self).ops()[i].operation_id@ == id@ ==> {
                    let e = final(self).ops()[i].errors@.last();
                    &&& final(self).ops().len() == old(self).ops().len()
                    &&& forall|j: int| 0 <= j < old(self).ops().len() && j != i ==> final(self).ops()[j] == old(self).ops()[j]
                    &&& final(self).ops()[i].status == settled_status(old(self).ops()[i].status, false, 0)
                    &&& final(self).ops()[i].completed_at == Some(now)
                    &&& final(self).ops()[i].errors@.drop_last() == old(self).ops()[i].errors@
                    &&& final(self).ops()[i].errors@.len() == old(self).ops()[i].errors@.len() + 1
                    &&& e.item_id@ == "operation"@ && e.error_type@ == "ProcessingError"@ && e.message == message
                    &&& e.code is None && e.retry_count == 0 && e.occurred_at == now
                    &&& final(self).ops()[i] == (BatchOperationResult {
                        status: settled_status(old(self).ops()[i].status, false, 0),
                        completed_at: Some(now),
                        errors: final(self).ops()[i].errors,
                        ..old(self).ops()[i]
                    })
                },
    {
        proof {
            use_type_invariant(&*self);
        }
        if let Some(i) = self.position(id) {
            let mut ops = self.take_ops();
            let ghost before = ops@;
            let mut rec = ops.remove(i);
            if rec.status != BatchOperationStatus::Cancelled {
                rec.status = BatchOperationStatus::Failed;
            }
            rec.completed_at = Some(now);
            let ghost errs = rec.errors@;
            rec.errors.push(BatchError {
                item_id: "operation".to_owned(),
                error_type: "ProcessingError".to_owned(),
                message,
                code: None,
                retry_count: 0,
                occurred_at: now,
            });
            assert(rec.errors@.drop_last() == errs);
            let ghost r1 = rec;
            ops.insert(i, rec);
            proof {
                assert(ops@ =~= before.update(i as int, r1));
                lemma_update_unique(before, i as int, r1);
                assert forall|j: int| 0 <= j < before.len() && #[trigger] before[j].operation_id@ == id@ implies j == i by {}
            }
            self.put_ops(ops);
        }
    }

    /// Stores the results of operation `id`.
    pub fn set_results(&mut self, id: &str, results: BatchResults)
        ensures
            final(self).settings() == old(self).settings(),
            !has_op(old(self).ops(), id@) ==> final(self).ops() == old(self).ops(),
            forall|i: int|
                0 <= i < old(self).ops().len() && #[trigger] old(self).ops()[i].operation_id@ == id@
                    ==> final(self).ops() == old(self).ops().update(i, BatchOperationResult { results, ..old(self).ops()[i] }),
    {
        proof {
            use_type_invariant(&*self);
        }
        if let Some(i) = self.position(id) {
            let mut ops = self.take_ops();
            let ghost before = ops@;
            let mut rec = ops.remove(i);
            rec.results = results;
            let ghost r1 = rec;
            ops.insert(i, rec);
            proof {
                assert(ops@ =~= before.update(i as int, r1));
                lemma_update_unique(before, i as int, r1);
                assert forall|j: int| 0 <= j < before.len() && #[trigger] before[j].operation_id@ == id@ implies j == i by {}
            }
            self.put_ops(ops);
        }
    }

    /// The results of a bulk indexing in which `successful` documents went
    /// well and `failed` did not: `doc_0`, `doc_1`, ... indexed,
    /// `failed_doc_0`, ... skipped, a kilobyte of index per indexed document.
    pub fn bulk_index_results(successful: usize, failed: usize) -> (r: BatchResults)
        requires
            successful * 1024 <= u64::MAX,
        ensures
            r matches BatchResults::BulkIndex { indexed_documents, skipped_documents, index_size_bytes }
                && string_views(indexed_documents@) == numbered("doc_"@, successful as nat)
                && string_views(skipped_documents@) == numbered("failed_doc_"@, failed as nat)
                && index_size_bytes == successful * 1024,
    {
        BatchResults::BulkIndex {
            indexed_documents: numbered_names("doc_", successful),
            skipped_documents: numbered_names("failed_doc_", failed),
            index_size_bytes: successful as u64 * 1024,
        }
    }

    /// One document of a bulk indexing of operation `id` was processed at
    /// `now`, well or not: the counts move on, a failure is recorded as an
    /// indexing error of that document, and every `progress_interval` items
    /// the progress is recorded.
    pub fn record_bulk_index_item(&mut self, id: &str, counter: &mut BulkCounter, document_id: &str, success: bool, progress_interval: usize, now: u64)
        requires
            progress_interval > 0,
            old(counter).processed < usize::MAX,
            old(counter).successful < usize::MAX,
            old(counter).failed < usize::MAX,
            progress_update_ok(old(self).ops(), id@, (old(counter).processed + 1) as usize, now),
        ensures
            final(self).settings() == old(self).settings(),
            final(counter).processed == old(counter).processed + 1,
            success ==> final(counter).successful == old(counter).successful + 1 && final(counter).failed == old(counter).failed,
            !success ==> final(counter).failed == old(counter).failed + 1 && final(counter).successful == old(counter).successful,
            final(self).ops().len() == old(self).ops().len(),
            forall|j: int|
                0 <= j < old(self).ops().len() && old(self).ops()[j].operation_id@ != id@ ==> #[trigger] final(self).ops()[j]
                    == old(self).ops()[j],
            forall|i: int|
                0 <= i < old(self).ops().len() && #[trigger] old(self).ops()[i].operation_id@ == id@ ==> {
                    &&& final(self).ops()[i].errors@.len() == old(self).ops()[i].errors@.len() + if success { 0int } else { 1int }
                    &&& final(self).ops()[i].errors@.take(old(self).ops()[i].errors@.len() as int) == old(self).ops()[i].errors@
                    &&& !success ==> {
                        let e = final(self).ops()[i].errors@.last();
                        &&& e.item_id@ == document_id@
                        &&& e.error_type@ == "IndexingError"@
                        &&& e.message@ == "Simulated indexing failure"@
                        &&& e.code matches Some(c) && c@ == "BULK_INDEX_001"@
                        &&& e.retry_count == 0
                        &&& e.occurred_at == now
                    }
                    &&& final(self).ops()[i].progress == if final(counter).processed % progress_interval == 0 {
                        progress_after(
                            old(self).ops()[i].progress,
                            old(self).ops()[i].started_at,
                            final(counter).processed,
                            final(counter).successful,
                            final(counter).failed,
                            now,
                        )
                    } else {
                        old(self).ops()[i].progress
                    }
                    &&& final(self).ops()[i].status == old(self).ops()[i].status
                    &&& final(self).ops()[i].started_at == old(self).ops()[i].started_at
                    &&& final(self).ops()[i].completed_at == old(self).ops()[i].completed_at
                    &&& final(self).ops()[i].operation_id == old(self).ops()[i].operation_id
                },
    {
        let ghost o = self.ops();
        if success {
            counter.successful = counter.successful + 1;
        } else {
            counter.failed = counter.failed + 1;
            self.record_error(
                id,
                BatchError {
                    item_id: document_id.to_owned(),
                    error_type: "IndexingError".to_owned(),
                    message: "Simulated indexing failure".to_owned(),
                    code: Some("BULK_INDEX_001".to_owned()),
                    retry_count: 0,
                    occurred_at: now,
                },
            );
        }
        let ghost mid = self.ops();
        counter.processed = counter.processed + 1;
        proof {
            assert forall|i: int| 0 <= i < mid.len() && #[trigger] mid[i].operation_id@ == id@ implies {
                &&& mid[i].started_at <= now
                &&& now * 1000 <= u64::MAX
                &&& (counter.processed > 0 && now > mid[i].started_at ==> counter.processed <= mid[i].progress.total_items)
            } by {
                if !success {
                    assert(o[i].operation_id@ == id@);
                } else {
                    assert(mid[i] == o[i]);
                }
            }
        }
        if counter.processed % progress_interval == 0 {
            self.update_progress_at(id, counter.processed, counter.successful, counter.failed, now);
        }
        proof {
            let f = self.ops();
            assert forall|i: int| 0 <= i < o.len() && #[trigger] o[i].operation_id@ == id@ implies {
                &&& f[i].errors@.len() == o[i].errors@.len() + if success { 0int } else { 1int }
                &&& f[i].errors@.take(o[i].errors@.len() as int) == o[i].errors@
                &&& !success ==> {
                    let e = f[i].errors@.last();
                    &&& e.item_id@ == document_id@
                    &&& e.error_type@ == "IndexingError"@
                    &&& e.message@ == "Simulated indexing failure"@
                    &&& e.code matches Some(c) && c@ == "BULK_INDEX_001"@
                    &&& e.retry_count == 0
                    &&& e.occurred_at == now
                }
                &&& f[i].progress == if counter.processed % progress_interval == 0 {
                    progress_after(o[i].progress, o[i].started_at, counter.processed, counter.successful, counter.failed, now)
                } else {
                    o[i].progress
                }
                &&& f[i].status == o[i].status
                &&& f[i].started_at == o[i].started_at
                &&& f[i].completed_at == o[i].completed_at
                &&& f[i].operation_id == o[i].operation_id
            } by {
                if !success {
                    assert(mid[i].errors@ == o[i].errors@.push(mid[i].errors@.last()));
                    assert(mid[i].errors@.take(o[i].errors@.len() as int) =~= o[i].errors@);
                    assert(mid[i] == (BatchOperationResult { errors: mid[i].errors, ..o[i] }));
                } else {
                    assert(mid[i] == o[i]);
                }
                assert(mid[i].operation_id@ == id@);
                if counter.processed % progress_interval == 0 {
                    assert(f[i] == (BatchOperationResult {
                        progress: progress_after(mid[i].progress, mid[i].started_at, counter.processed, counter.successful, counter.failed, now),
                        ..mid[i]
                    }));
                } else {
                    assert(f[i] == mid[i]);
                }
            }
        }
    }

    /// Removes the operations finished before `now` less the configured
    /// number of hours, and returns their ids.
    pub fn cleanup_completed_at(&mut self, now: u64) -> (removed: Vec<String>)
        requires
            old(self).settings().cleanup_completed_operations_hours * 3600 <= now,
        ensures
            final(self).settings() == old(self).settings(),
            final(self).ops() == kept_after_cleanup(
                old(self).ops(),
                (now - old(self).settings().cleanup_completed_operations_hours * 3600) as u64,
            ),
            string_views(removed@) == removed_by_cleanup(
                old(self).ops(),
                (now - old(self).settings().cleanup_completed_operations_hours * 3600) as u64,
            ),
    {
        let cutoff: u64 = now - self.config.cleanup_completed_operations_hours * 3600;
        let mut rest = self.take_ops();
        let ghost orig = rest@;
        let mut kept: Vec<BatchOperationResult> = Vec::new();
        let mut removed: Vec<String> = Vec::new();
        let n = rest.len();
        let mut i: usize = 0;
        assert(orig.take(0) =~= Seq::<BatchOperationResult>::empty());
        while i < n
            invariant
                n == orig.len(),
                i <= n,
                unique_ops(orig),
                rest@ == orig.skip(i as int),
                kept@ == kept_after_cleanup(orig.take(i as int), cutoff),
                string_views(removed@) == removed_by_cleanup(orig.take(i as int), cutoff),
                forall|k: int| 0 <= k < kept@.len() ==> orig.take(i as int).contains(#[trigger] kept@[k]),
            decreases n - i,
        {
            let ghost pre = orig.take(i as int);
            let ghost cur = orig.take(i + 1);
            assert(cur.drop_last() == pre);
            assert(cur.last() == orig[i as int]);
            assert(rest@[0] == orig[i as int]);
            let rec = rest.remove(0);
            assert(rest@ == orig.skip(i + 1));
            let finished = rec.status == BatchOperationStatus::Completed || rec.status == BatchOperationStatus::CompletedWithErrors
                || rec.status == BatchOperationStatus::Failed || rec.status == BatchOperationStatus::Cancelled;
            let completed: u64 = match rec.completed_at {
                Some(t) => t,
                None => 0,
            };
            if finished && completed < cutoff {
                let ghost r0 = removed@;
                removed.push(rec.operation_id);
                assert(string_views(removed@) =~= string_views(r0).push(orig[i as int].operation_id@));
            } else {
                let ghost k0 = kept@;
                kept.push(rec);
                assert forall|k: int| 0 <= k < kept@.len() implies cur.contains(#[trigger] kept@[k]) by {
                    if k < k0.len() {
                        assert(pre.contains(k0[k]));
                        let m = choose|m: int| 0 <= m < pre.len() && pre[m] == k0[k];
                        assert(cur[m] == pre[m]);
                    } else {
                        assert(cur[i as int] == kept@[k]);
                    }
                }
            }
            proof {
                assert forall|k: int| 0 <= k < kept@.len() implies cur.contains(#[trigger] kept@[k]) by {
                    if finished && completed < cutoff {
                        assert(pre.contains(kept@[k]));
                        let m = choose|m: int| 0 <= m < pre.len() && pre[m] == kept@[k];
                        assert(cur[m] == pre[m]);
                    }
                }
            }
            i = i + 1;
        }
        assert(orig.take(n as int) == orig);
        proof {
            lemma_kept_unique(orig, cutoff);
        }
        self.put_ops(kept);
        removed
    }

    /// Removes the operations finished long enough ago, as the clock reads
    /// `ts` (seconds since the Unix epoch); `None`, changing nothing, when
    /// `ts` is earlier than the cleanup window (or before the epoch).
    pub fn cleanup_completed_as_of(&mut self, ts: i64) -> (removed: Option<Vec<String>>)
        ensures
            final(self).settings() == old(self).settings(),
            cleanup_outcome(
                old(self).ops(),
                final(self).ops(),
                old(self).settings().cleanup_completed_operations_hours,
                ts,
                removed,
            ),
    {
        if ts < 0 {
            return None;
        }
        let now = ts as u64;
        if (self.config.cleanup_completed_operations_hours as u128) * 3600 > now as u128 {
            return None;
        }
        let removed = self.cleanup_completed_at(now);
        Some(removed)
    }

    /// Removes the operations finished long enough ago, as the clock reads
    /// now, as `cleanup_completed_as_of` does with the current time.
    pub fn cleanup_completed(&mut self) -> (removed: Option<Vec<String>>)
        ensures
            final(self).settings() == old(self).settings(),
            exists|ts: i64|
                #[trigger] cleanup_outcome(
                    old(self).ops(),
                    final(self).ops(),
                    old(self).settings().cleanup_completed_operations_hours,
                    ts,
                    removed,
                ),
    {
        let ts = unix_timestamp();
        let removed = self.cleanup_completed_as_of(ts);
        assert(cleanup_outcome(
            old(self).ops(),
            self.ops(),
            old(self).settings().cleanup_completed_operations_hours,
            ts,
            removed,
        ));
        removed
    }
}

} // verus!

verus! {

/// A cancelled operation cannot be cancelled again, and an operation ends
/// (completed, with or without errors, failed, or cancelled) in a status that
/// can neither be cancelled nor escapes the cleanup.
pub proof fn law_finished_operations_are_settled(current: BatchOperationStatus, ok: bool, error_count: nat)
    ensures
        !cancellable(BatchOperationStatus::Cancelled),
        !cancellable(final_status(ok, error_count)),
        cleanable(final_status(ok, error_count)),
        cleanable(BatchOperationStatus::Cancelled),
        !cancellable(settled_status(current, ok, error_count)),
        cleanable(settled_status(current, ok, error_count)),
{
}

/// A cancelled operation stays cancelled: neither starting nor finishing its
/// processing changes that status.
pub proof fn law_cancellation_sticks(ok: bool, error_count: nat)
    ensures
        started_status(BatchOperationStatus::Cancelled) == BatchOperationStatus::Cancelled,
        settled_status(BatchOperationStatus::Cancelled, ok, error_count) == BatchOperationStatus::Cancelled,
{
}

/// The cleanup splits the records in two: every record is either kept or
/// removed, a removed one is finished before the cutoff, and a kept one is not.
pub proof fn law_cleanup_partitions(ops: Seq<BatchOperationResult>, cutoff: u64)
    ensures
        kept_after_cleanup(ops, cutoff).len() + removed_by_cleanup(ops, cutoff).len() == ops.len(),
        forall|i: int| 0 <= i < kept_after_cleanup(ops, cutoff).len() ==> !cleanup_due(
            #[trigger] kept_after_cleanup(ops, cutoff)[i],
            cutoff,
        ),
    decreases ops.len(),
{
    if ops.len() > 0 {
        law_cleanup_partitions(ops.drop_last(), cutoff);
        let prev = kept_after_cleanup(ops.drop_last(), cutoff);
        if !cleanup_due(ops.last(), cutoff) {
            assert forall|i: int| 0 <= i < kept_after_cleanup(ops, cutoff).len() implies !cleanup_due(
                #[trigger] kept_after_cleanup(ops, cutoff)[i],
                cutoff,
            ) by {
                if i < prev.len() {
                    assert(kept_after_cleanup(ops, cutoff)[i] == prev[i]);
                }
            }
        }
    }
}


/// Cancelling an operation that is queued or running succeeds: it becomes
/// cancelled, finished at the time of cancelling, and nothing else changes.
/// Cancelling one that has completed (with or without errors), failed, timed
/// out or was already cancelled is refused and changes nothing.
pub proof fn law_cancel_queued_or_running(
    ops: Seq<BatchOperationResult>,
    after: Seq<BatchOperationResult>,
    id: Seq<char>,
    now: u64,
    r: Result<(), BatchOperationError>,
    i: int,
)
    requires
        0 <= i < ops.len(),
        ops[i].operation_id@ == id,
        cancel_outcome(ops, after, id, now, r),
    ensures
        (ops[i].status == BatchOperationStatus::Queued || ops[i].status == BatchOperationStatus::Running) ==> {
            &&& r is Ok
            &&& after.len() == ops.len()
            &&& after[i].status == BatchOperationStatus::Cancelled
            &&& after[i].completed_at == Some(now)
            &&& forall|j: int| 0 <= j < ops.len() && j != i ==> after[j] == ops[j]
        },
        (ops[i].status == BatchOperationStatus::Completed || ops[i].status == BatchOperationStatus::CompletedWithErrors
            || ops[i].status == BatchOperationStatus::Failed || ops[i].status == BatchOperationStatus::TimedOut
            || ops[i].status == BatchOperationStatus::Cancelled) ==> (r is Err && after == ops),
{
    assert(ops[i].operation_id@ == id);
}


/// Processing ends failed when it broke off, completed when it went through
/// without a recorded error, and completed with errors when it went through
/// with some.
pub proof fn law_final_status_by_outcome(ok: bool, error_count: nat)
    ensures
        !ok ==> final_status(ok, error_count) == BatchOperationStatus::Failed,
        ok && error_count == 0 ==> final_status(ok, error_count) == BatchOperationStatus::Completed,
        ok && error_count > 0 ==> final_status(ok, error_count) == BatchOperationStatus::CompletedWithErrors,
{
}


/// The cleanup removes a record exactly when it has finished (completed,
/// with or without errors, failed or cancelled) before the cutoff; a queued,
/// running or timed-out record stays whatever its time.
pub proof fn law_cleanup_due_when_finished_before(rec: BatchOperationResult, cutoff: u64)
    ensures
        (rec.status == BatchOperationStatus::Queued || rec.status == BatchOperationStatus::Running
            || rec.status == BatchOperationStatus::TimedOut) ==> !cleanup_due(rec, cutoff),
        (rec.status == BatchOperationStatus::Completed || rec.status == BatchOperationStatus::CompletedWithErrors
            || rec.status == BatchOperationStatus::Failed || rec.status == BatchOperationStatus::Cancelled) ==> (
        cleanup_due(rec, cutoff) <==> match rec.completed_at {
            Some(t) => t < cutoff,
            None => 0 < cutoff,
        }),
{
}

} // verus!
