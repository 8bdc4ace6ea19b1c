//! Settings and response shapes of the enhanced API.

use vstd::prelude::*;
use crate::env::{env_bool, env_flag, env_lookup, env_number, env_u32, env_usize, env_view, lookup};
use crate::batch::{BatchOperationRequest, BatchOperationResult, BatchOperationType, BatchProcessingConfig, BatchProcessor, has_op, status_name, submission_outcome};
use crate::collections::{
    CollectionConfig, CollectionError, CollectionManager, CollectionStats, CreateCollectionRequest, SearchConfig,
    VectorStoreConfig, creation_outcome, error_text, has_collection, name_taken,
};
use crate::text::{decimal, push_decimal, push_text, string_from_chars};

verus! {

/// Which enhanced features the API offers, and its limits.
#[derive(Debug, Clone)]
pub struct ApiServiceConfig {
    pub enable_enhanced_search: bool,
    pub enable_collection_management: bool,
    pub enable_batch_operations: bool,
    pub max_search_results: usize,
    pub max_collections_per_user: usize,
    pub max_concurrent_batch_ops: usize,
    pub default_collection: Option<String>,
    pub enable_rate_limiting: bool,
    pub rate_limit_per_minute: u32,
}

/// The API settings read from `env`.
pub open spec fn api_config_from(env: Seq<(Seq<char>, Seq<char>)>, c: ApiServiceConfig) -> bool {
    &&& c.enable_enhanced_search == env_flag(env, "API_ENABLE_ENHANCED_SEARCH"@, true)
    &&& c.enable_collection_management == env_flag(env, "API_ENABLE_COLLECTION_MANAGEMENT"@, true)
    &&& c.enable_batch_operations == env_flag(env, "API_ENABLE_BATCH_OPERATIONS"@, true)
    &&& c.max_search_results == env_number(env, "API_MAX_SEARCH_RESULTS"@, usize::MAX as nat, 1000)
    &&& c.max_collections_per_user == env_number(env, "API_MAX_COLLECTIONS_PER_USER"@, usize::MAX as nat, 10)
    &&& c.max_concurrent_batch_ops == env_number(env, "API_MAX_CONCURRENT_BATCH_OPS"@, usize::MAX as nat, 5)
    &&& match lookup(env, "API_DEFAULT_COLLECTION"@) {
        Some(v) => c.default_collection is Some && c.default_collection->0@ == v,
        None => c.default_collection is None,
    }
    &&& c.enable_rate_limiting == env_flag(env, "API_ENABLE_RATE_LIMITING"@, false)
    &&& c.rate_limit_per_minute == env_number(env, "API_RATE_LIMIT_PER_MINUTE"@, u32::MAX as nat, 100)
}

impl ApiServiceConfig {
    /// The settings from the given environment variables.
    pub fn from_env(env: &Vec<(String, String)>) -> (c: Self)
        ensures
            api_config_from(env_view(env@), c),
    {
        ApiServiceConfig {
            enable_enhanced_search: env_bool(env, "API_ENABLE_ENHANCED_SEARCH", true),
            enable_collection_management: env_bool(env, "API_ENABLE_COLLECTION_MANAGEMENT", true),
            enable_batch_operations: env_bool(env, "API_ENABLE_BATCH_OPERATIONS", true),
            max_search_results: env_usize(env, "API_MAX_SEARCH_RESULTS", 1000),
            max_collections_per_user: env_usize(env, "API_MAX_COLLECTIONS_PER_USER", 10),
            max_concurrent_batch_ops: env_usize(env, "API_MAX_CONCURRENT_BATCH_OPS", 5),
            default_collection: env_lookup(env, "API_DEFAULT_COLLECTION"),
            enable_rate_limiting: env_bool(env, "API_ENABLE_RATE_LIMITING", false),
            rate_limit_per_minute: env_u32(env, "API_RATE_LIMIT_PER_MINUTE", 100),
        }
    }
}

impl Default for ApiServiceConfig {
    /// The settings with no variable set.
    fn default() -> (c: Self)
        ensures
            api_config_from(Seq::empty(), c),
    {
        let env: Vec<(String, String)> = Vec::new();
        assert(env_view(env@) =~= Seq::empty());
        ApiServiceConfig::from_env(&env)
    }
}

/// How a collection is doing.
#[derive(Debug, Clone)]
pub enum CollectionHealthStatus {
    Healthy,
    Warning { message: String },
    Error { message: String },
    Unavailable,
}

/// Counts of a cross-collection search.
#[derive(Debug, Clone)]
pub struct CrossCollectionStats {
    pub collections_searched: Vec<String>,
    pub total_results: usize,
    pub results_per_collection: Vec<(String, usize)>,
    pub total_processing_time_ms: u64,
}

/// An error answered by the API.
#[derive(Debug, Clone)]
pub struct ApiErrorResponse {
    pub code: String,
    pub message: String,
    pub details: Option<Vec<(String, String)>>,
    pub timestamp: u64,
    pub request_id: Option<String>,
}

/// `e` is the error with `code` and `message` raised at `now`, with no
/// details and no request id.
pub open spec fn is_api_error(e: ApiErrorResponse, code: Seq<char>, message: Seq<char>, now: u64) -> bool {
    &&& e.code@ == code
    &&& e.message@ == message
    &&& e.details is None
    &&& e.timestamp == now
    &&& e.request_id is None
}

/// The error with `code` and `message` raised at `now`.
pub fn api_error(code: &str, message: String, now: u64) -> (e: ApiErrorResponse)
    ensures
        is_api_error(e, code@, message@, now),
{
    ApiErrorResponse { code: code.to_owned(), message, details: None, timestamp: now, request_id: None }
}

/// The answer to a search that failed with `reason`, at `now`.
pub fn search_failed(reason: &str, now: u64) -> (e: ApiErrorResponse)
    ensures
        is_api_error(e, "SEARCH_ERROR"@, "Search failed: "@ + reason@, now),
{
    let mut text: Vec<char> = Vec::new();
    push_text(&mut text, "Search failed: ");
    push_text(&mut text, reason);
    api_error("SEARCH_ERROR", string_from_chars(&text), now)
}

/// The collection a search response names: the one the request named, else
/// `default`.
pub fn response_collection(collection: Option<String>) -> (r: String)
    ensures
        r@ == match collection {
            Some(c) => c@,
            None => "default"@,
        },
{
    match collection {
        Some(c) => c,
        None => "default".to_owned(),
    }
}

/// A request to create a collection through the API.
#[derive(Debug, Clone)]
pub struct ApiCreateCollectionRequest {
    pub name: String,
    pub description: Option<String>,
    pub vector_dimension: Option<usize>,
    pub distance_metric: Option<String>,
    pub metadata: Option<Vec<(String, serde_json::Value)>>,
    pub enable_semantic_search: Option<bool>,
    pub default_search_limit: Option<usize>,
}

/// A collection as the API shows it.
#[derive(Debug)]
pub struct ApiCollectionInfo<'a> {
    pub config: &'a CollectionConfig,
    pub stats: Option<&'a CollectionStats>,
    pub health: CollectionHealthStatus,
}

/// A request to start a batch operation through the API.
#[derive(Debug, Clone)]
pub struct ApiBatchOperationRequest {
    pub operation: BatchOperationType,
    pub priority: Option<u8>,
    pub callback_url: Option<String>,
    pub timeout_seconds: Option<u64>,
    pub continue_on_error: Option<bool>,
    pub metadata: Option<Vec<(String, serde_json::Value)>>,
}

/// A short account of a batch operation.
#[derive(Debug, Clone)]
pub struct BatchOperationSummary {
    pub status: String,
    pub processed_items: usize,
    pub total_items: usize,
    pub estimated_remaining_seconds: Option<u64>,
    pub has_errors: bool,
    pub error_count: usize,
}

/// `s` is the summary of the operation record `rec`.
pub open spec fn summarizes(s: BatchOperationSummary, rec: BatchOperationResult) -> bool {
    &&& s.status@ == status_name(rec.status)
    &&& s.processed_items == rec.progress.processed_items
    &&& s.total_items == rec.progress.total_items
    &&& s.estimated_remaining_seconds == rec.progress.estimated_remaining_seconds
    &&& s.has_errors == (rec.errors@.len() > 0)
    &&& s.error_count == rec.errors@.len()
}

/// The summary of an operation record.
pub fn summarize(rec: &BatchOperationResult) -> (s: BatchOperationSummary)
    ensures
        summarizes(s, *rec),
{
    BatchOperationSummary {
        status: rec.status.name().to_owned(),
        processed_items: rec.progress.processed_items,
        total_items: rec.progress.total_items,
        estimated_remaining_seconds: rec.progress.estimated_remaining_seconds,
        has_errors: rec.errors.len() > 0,
        error_count: rec.errors.len(),
    }
}

/// The internal request made from API batch request `request` under
/// `config`: no id (the processor makes one), the request's operation,
/// priority, callback and metadata, concurrency up to the configured number
/// of batch operations, the request's timeout and error policy, and
/// defaults for the rest.
pub open spec fn api_batch_request(config: ApiServiceConfig, request: ApiBatchOperationRequest, r: BatchOperationRequest) -> bool {
    &&& r.operation_id is None
    &&& r.operation == request.operation
    &&& r.config == (BatchProcessingConfig {
        max_concurrency: Some(config.max_concurrent_batch_ops),
        batch_size: None,
        timeout_seconds: request.timeout_seconds,
        continue_on_error: request.continue_on_error,
        max_retries: None,
        progress_interval: None,
        memory_limit_mb: None,
    })
    &&& r.priority == request.priority
    &&& r.callback_url == request.callback_url
    &&& r.metadata == request.metadata
}

/// The timestamp the API creates collections at: `now` in seconds,
/// saturating at the largest signed value.
pub open spec fn api_stamp(now: u64) -> i64 {
    if now <= i64::MAX { now as i64 } else { i64::MAX }
}

/// The internal request made from an API collection request: the given
/// dimension (384 when unset), metric ("cosine" when unset), an HNSW index,
/// and search with the given default limit (10 when unset) up to 1000 results.
pub open spec fn internal_collection_request(api: ApiCreateCollectionRequest, r: CreateCollectionRequest) -> bool {
    &&& r.name == api.name
    &&& r.description == api.description
    &&& r.vector_config.dimension == match api.vector_dimension {
        Some(d) => d,
        None => 384,
    }
    &&& r.vector_config.metric@ == match api.distance_metric {
        Some(m) => m@,
        None => "cosine"@,
    }
    &&& r.vector_config.index_type@ == "hnsw"@
    &&& r.vector_config.index_params@.len() == 0
    &&& r.vector_config.max_vectors is None
    &&& r.search_config == Some(SearchConfig {
        default_limit: match api.default_search_limit {
            Some(l) => l,
            None => 10,
        },
        max_limit: 1000,
        enable_metadata_filtering: true,
    })
    &&& r.metadata == api.metadata
}

/// The internal request made from an API collection request.
pub fn to_internal_request(api: ApiCreateCollectionRequest) -> (r: CreateCollectionRequest)
    ensures
        internal_collection_request(api, r),
{
    let metric = match api.distance_metric {
        Some(m) => m,
        None => "cosine".to_owned(),
    };
    CreateCollectionRequest {
        name: api.name,
        description: api.description,
        vector_config: VectorStoreConfig {
            dimension: match api.vector_dimension {
                Some(d) => d,
                None => 384,
            },
            metric,
            index_type: "hnsw".to_owned(),
            index_params: Vec::new(),
            max_vectors: None,
        },
        search_config: Some(SearchConfig {
            default_limit: match api.default_search_limit {
                Some(l) => l,
                None => 10,
            },
            max_limit: 1000,
            enable_metadata_filtering: true,
        }),
        metadata: api.metadata,
    }
}

/// `stats` is what the manager keeps for collection `id`: its statistics
/// when it has some, else nothing.
pub open spec fn stats_for(m: CollectionManager, id: Seq<char>, stats: Option<&CollectionStats>) -> bool {
    match stats {
        Some(s) => s.collection_id@ == id && m.stats().contains(*s),
        None => forall|k: int| 0 <= k < m.stats().len() ==> (#[trigger] m.stats()[k]).collection_id@ != id,
    }
}

/// The API over collections, batch operations and search settings.
pub struct EnhancedApiService {
    config: ApiServiceConfig,
    collection_manager: CollectionManager,
    batch_processor: BatchProcessor,
}

/// `text` followed by the decimal form of `n`.
fn with_number(out: &mut Vec<char>, text: &str, n: usize)
    ensures
        final(out)@ == old(out)@ + text@ + decimal(n as nat),
{
    push_text(out, text);
    push_decimal(out, n as u64);
}

impl EnhancedApiService {
    /// Its settings.
    pub closed spec fn config_spec(&self) -> ApiServiceConfig {
        self.config
    }

    /// Its collection manager.
    pub closed spec fn collections_spec(&self) -> CollectionManager {
        self.collection_manager
    }

    /// Its batch processor.
    pub closed spec fn batches_spec(&self) -> BatchProcessor {
        self.batch_processor
    }

    /// The API over the given components.
    pub fn new(config: ApiServiceConfig, collection_manager: CollectionManager, batch_processor: BatchProcessor) -> (a: Self)
        ensures
            a.config_spec() == config,
            a.collections_spec() == collection_manager,
            a.batches_spec() == batch_processor,
    {
        EnhancedApiService { config, collection_manager, batch_processor }
    }

    /// The batch processor, to work through submitted operations.
    pub fn batch_processor_mut(&mut self) -> (r: &mut BatchProcessor)
        ensures
            *r == old(self).batches_spec(),
            final(self).batches_spec() == *final(r),
            final(self).config_spec() == old(self).config_spec(),
            final(self).collections_spec() == old(self).collections_spec(),
    {
        &mut self.batch_processor
    }

    /// Checks a search request before it is run at `now`: refused when
    /// enhanced search is off, or when it asks for more results than allowed.
    pub fn check_search_request(&self, limit: Option<usize>, now: u64) -> (r: Result<(), ApiErrorResponse>)
        ensures
            !self.config_spec().enable_enhanced_search ==> (r matches Err(e) && is_api_error(
                e,
                "FEATURE_DISABLED"@,
                "Enhanced search is not enabled"@,
                now,
            )),
            (self.config_spec().enable_enhanced_search && (limit matches Some(l) && l
                > self.config_spec().max_search_results)) ==> (r matches Err(e) && is_api_error(
                e,
                "LIMIT_EXCEEDED"@,
                "Search limit "@ + decimal(limit->0 as nat) + " exceeds maximum "@ + decimal(
                    self.config_spec().max_search_results as nat,
                ),
                now,
            )),
            self.config_spec().enable_enhanced_search && !(limit matches Some(l) && l
                > self.config_spec().max_search_results) ==> r is Ok,
    {
        if !self.config.enable_enhanced_search {
            return Err(api_error("FEATURE_DISABLED", "Enhanced search is not enabled".to_owned(), now));
        }
        if let Some(l) = limit {
            if l > self.config.max_search_results {
                let mut text: Vec<char> = Vec::new();
                with_number(&mut text, "Search limit ", l);
                with_number(&mut text, " exceeds maximum ", self.config.max_search_results);
                return Err(api_error("LIMIT_EXCEEDED", string_from_chars(&text), now));
            }
        }
        Ok(())
    }

    /// The collections a search covers: the one asked for, else the default
    /// collection, else none named.
    pub fn search_collections(&self, collection: Option<String>) -> (r: Option<Vec<String>>)
        ensures
            match collection {
                Some(c) => r matches Some(v) && v@ == seq![c],
                None => match self.config_spec().default_collection {
                    Some(d) => r matches Some(v) && v@.len() == 1 && v@[0]@ == d@,
                    None => r is None,
                },
            },
    {
        match collection {
            Some(c) => Some(vec![c]),
            None => match &self.config.default_collection {
                Some(d) => Some(vec![d.clone()]),
                None => None,
            },
        }
    }

    /// The refinement suggestions, when asked for.
    pub fn refinements(enable: Option<bool>) -> (r: Option<Vec<String>>)
        ensures
            enable == Some(true) ==> (r matches Some(v) && v@.len() == 3 && v@[0]@ == "Try more specific terms"@
                && v@[1]@ == "Use synonyms"@ && v@[2]@ == "Check spelling"@),
            enable != Some(true) ==> r is None,
    {
        match enable {
            Some(true) => Some(
                vec!["Try more specific terms".to_owned(), "Use synonyms".to_owned(), "Check spelling".to_owned()],
            ),
            _ => None,
        }
    }

    /// Creates a collection at `now`: refused when collection management is
    /// off, or with the manager's reason when the manager refuses; otherwise
    /// the manager stores it and its copy is returned.
    pub fn create_collection(&mut self, request: ApiCreateCollectionRequest, now: u64) -> (r: Result<
        CollectionConfig,
        ApiErrorResponse,
    >)
        ensures
            final(self).config_spec() == old(self).config_spec(),
            final(self).collections_spec().settings() == old(self).collections_spec().settings(),
            final(self).batches_spec() == old(self).batches_spec(),
            !old(self).config_spec().enable_collection_management ==> (r matches Err(e) && is_api_error(
                e,
                "FEATURE_DISABLED"@,
                "Collection management is not enabled"@,
                now,
            )) && final(self).collections_spec() == old(self).collections_spec(),
            old(self).config_spec().enable_collection_management ==> exists|
                internal: CreateCollectionRequest,
                mr: Result<CollectionConfig, CollectionError>,
            |
                #[trigger] internal_collection_request(request, internal) && #[trigger] creation_outcome(
                    old(self).collections_spec().collections(),
                    old(self).collections_spec().stats(),
                    old(self).collections_spec().settings(),
                    internal,
                    api_stamp(now),
                    final(self).collections_spec().collections(),
                    final(self).collections_spec().stats(),
                    mr,
                ) && match mr {
                    Ok(c) => r == Ok::<CollectionConfig, ApiErrorResponse>(c),
                    Err(e) => r matches Err(x) && is_api_error(
                        x,
                        "COLLECTION_CREATION_FAILED"@,
                        "Failed to create collection: "@ + error_text(e),
                        now,
                    ),
                },
    {
        if !self.config.enable_collection_management {
            return Err(api_error("FEATURE_DISABLED", "Collection management is not enabled".to_owned(), now));
        }
        let internal = to_internal_request(request);
        let ghost req = internal;
        let stamp: i64 = if now <= i64::MAX as u64 { now as i64 } else { i64::MAX };
        let mr = self.collection_manager.create_collection_at(internal, stamp);
        let ghost gmr = mr;
        assert(creation_outcome(
            old(self).collections_spec().collections(),
            old(self).collections_spec().stats(),
            old(self).collections_spec().settings(),
            req,
            api_stamp(now),
            self.collections_spec().collections(),
            self.collections_spec().stats(),
            gmr,
        ));
        match mr {
            Ok(c) => Ok(c),
            Err(error) => {
                let mut text: Vec<char> = Vec::new();
                push_text(&mut text, "Failed to create collection: ");
                let m = error.message();
                push_text(&mut text, m.as_str());
                Err(api_error("COLLECTION_CREATION_FAILED", string_from_chars(&text), now))
            },
        }
    }

    /// Every collection with its statistics, at `now`; refused when
    /// collection management is off.
    pub fn list_collections(&self, now: u64) -> (r: Result<Vec<ApiCollectionInfo<'_>>, ApiErrorResponse>)
        ensures
            !self.config_spec().enable_collection_management ==> (r matches Err(e) && is_api_error(
                e,
                "FEATURE_DISABLED"@,
                "Collection management is not enabled"@,
                now,
            )),
            self.config_spec().enable_collection_management ==> (r matches Ok(v) && v@.len()
                == self.collections_spec().collections().len() && forall|i: int|
                0 <= i < v@.len() ==> *(#[trigger] v@[i]).config == self.collections_spec().collections()[i]
                    && stats_for(self.collections_spec(), v@[i].config.id@, v@[i].stats)
                    && v@[i].health == CollectionHealthStatus::Healthy),
    {
        if !self.config.enable_collection_management {
            return Err(api_error("FEATURE_DISABLED", "Collection management is not enabled".to_owned(), now));
        }
        let all = self.collection_manager.list_collections();
        let mut out: Vec<ApiCollectionInfo<'_>> = Vec::new();
        let mut i: usize = 0;
        while i < all.len()
            invariant
                i <= all.len(),
                all@ == self.collection_manager.collections(),
                out@.len() == i,
                forall|k: int| 0 <= k < i ==> *(#[trigger] out@[k]).config == all@[k]
                    && stats_for(self.collection_manager, out@[k].config.id@, out@[k].stats)
                    && out@[k].health == CollectionHealthStatus::Healthy,
            decreases all.len() - i,
        {
            let config = &all[i];
            let stats = self.collection_manager.get_collection_stats(config.id.as_str());
            out.push(ApiCollectionInfo { config, stats, health: CollectionHealthStatus::Healthy });
            i = i + 1;
        }
        Ok(out)
    }

    /// Collection `id` with its statistics, at `now`; refused when collection
    /// management is off or no collection has that id.
    pub fn get_collection(&self, id: &str, now: u64) -> (r: Result<ApiCollectionInfo<'_>, ApiErrorResponse>)
        ensures
            !self.config_spec().enable_collection_management ==> (r matches Err(e) && is_api_error(
                e,
                "FEATURE_DISABLED"@,
                "Collection management is not enabled"@,
                now,
            )),
            self.config_spec().enable_collection_management && !has_collection(
                self.collections_spec().collections(),
                id@,
            ) ==> (r matches Err(e) && is_api_error(e, "COLLECTION_NOT_FOUND"@, "Collection "@ + id@ + " not found"@, now)),
            self.config_spec().enable_collection_management && has_collection(
                self.collections_spec().collections(),
                id@,
            ) ==> (r matches Ok(info) && info.config.id@ == id@ && self.collections_spec().collections().contains(
                *info.config,
            ) && stats_for(self.collections_spec(), id@, info.stats) && info.health == CollectionHealthStatus::Healthy),
    {
        if !self.config.enable_collection_management {
            return Err(api_error("FEATURE_DISABLED", "Collection management is not enabled".to_owned(), now));
        }
        match self.collection_manager.get_collection(id) {
            Some(config) => {
                let stats = self.collection_manager.get_collection_stats(id);
                Ok(ApiCollectionInfo { config, stats, health: CollectionHealthStatus::Healthy })
            },
            None => {
                let mut text: Vec<char> = Vec::new();
                push_text(&mut text, "Collection ");
                push_text(&mut text, id);
                push_text(&mut text, " not found");
                Err(api_error("COLLECTION_NOT_FOUND", string_from_chars(&text), now))
            },
        }
    }

    /// The internal request for an API batch request: at most the allowed
    /// number of concurrent operations, the request's timeout and error
    /// policy, defaults for the rest.
    pub fn batch_request(&self, request: ApiBatchOperationRequest) -> (r: BatchOperationRequest)
        ensures
            api_batch_request(self.config_spec(), request, r),
    {
        BatchOperationRequest {
            operation_id: None,
            operation: request.operation,
            config: BatchProcessingConfig {
                max_concurrency: Some(self.config.max_concurrent_batch_ops),
                batch_size: None,
                timeout_seconds: request.timeout_seconds,
                continue_on_error: request.continue_on_error,
                max_retries: None,
                progress_interval: None,
                memory_limit_mb: None,
            },
            priority: request.priority,
            callback_url: request.callback_url,
            metadata: request.metadata,
        }
    }

    /// Operation `id`'s summary, at `now`; refused when batch operations are
    /// off or no operation has that id.
    pub fn get_batch_operation_status(&self, id: &str, now: u64) -> (r: Result<BatchOperationSummary, ApiErrorResponse>)
        ensures
            !self.config_spec().enable_batch_operations ==> (r matches Err(e) && is_api_error(
                e,
                "FEATURE_DISABLED"@,
                "Batch operations are not enabled"@,
                now,
            )),
            self.config_spec().enable_batch_operations && !has_op(self.batches_spec().ops(), id@) ==> (r matches Err(
                e,
            ) && is_api_error(e, "OPERATION_NOT_FOUND"@, "Operation "@ + id@ + " not found"@, now)),
            self.config_spec().enable_batch_operations && has_op(self.batches_spec().ops(), id@) ==> (r matches Ok(s)
                && exists|rec: BatchOperationResult| #![auto]
                self.batches_spec().ops().contains(rec) && rec.operation_id@ == id@ && summarizes(s, rec)),
    {
        if !self.config.enable_batch_operations {
            return Err(api_error("FEATURE_DISABLED", "Batch operations are not enabled".to_owned(), now));
        }
        match self.batch_processor.get_operation_status(id) {
            Some(rec) => Ok(summarize(rec)),
            None => {
                let mut text: Vec<char> = Vec::new();
                push_text(&mut text, "Operation ");
                push_text(&mut text, id);
                push_text(&mut text, " not found");
                Err(api_error("OPERATION_NOT_FOUND", string_from_chars(&text), now))
            },
        }
    }
    /// Submits a batch operation at `now`; refused when batch operations are
    /// off. Returns the operation's id, the request ready to be processed,
    /// and the summary of its new record.
    pub fn submit_batch_operation(&mut self, request: ApiBatchOperationRequest, now: u64) -> (r: Result<
        (String, BatchOperationRequest, BatchOperationSummary),
        ApiErrorResponse,
    >)
        ensures
            final(self).config_spec() == old(self).config_spec(),
            !old(self).config_spec().enable_batch_operations ==> (r matches Err(e) && is_api_error(
                e,
                "FEATURE_DISABLED"@,
                "Batch operations are not enabled"@,
                now,
            ) && final(self).batches_spec() == old(self).batches_spec()),
            old(self).config_spec().enable_batch_operations ==> r is Ok,
            old(self).config_spec().enable_batch_operations ==> exists|internal: BatchOperationRequest|
                #[trigger] api_batch_request(old(self).config_spec(), request, internal) && (r matches Ok(t)
                    && submission_outcome(old(self).batches_spec(), final(self).batches_spec(), internal, (t.0, t.1))),
            final(self).collections_spec() == old(self).collections_spec(),
            r matches Ok(t) ==> has_op(final(self).batches_spec().ops(), t.0@),
            r matches Ok(t) ==> exists|rec: BatchOperationResult| #![trigger summarizes(t.2, rec)]
                final(self).batches_spec().ops().contains(rec) && rec.operation_id@ == t.0@ && summarizes(t.2, rec),
    {
        if !self.config.enable_batch_operations {
            return Err(api_error("FEATURE_DISABLED", "Batch operations are not enabled".to_owned(), now));
        }
        let internal = self.batch_request(request);
        let ghost gi = internal;
        let ghost before = self.batch_processor;
        let sub = self.batch_processor.submit_operation(internal);
        assert(submission_outcome(before, self.batch_processor, gi, sub));
        let (id, prepared) = sub;
        match self.batch_processor.get_operation_status(id.as_str()) {
            Some(rec) => {
                let summary = summarize(rec);
                let ghost g = *rec;
                let out = (id, prepared, summary);
                assert(self.batches_spec().ops().contains(g));
                assert(g.operation_id@ == out.0@);
                assert(summarizes(out.2, g));
                assert(exists|x: BatchOperationResult| #![trigger summarizes(out.2, x)]
                    self.batches_spec().ops().contains(x) && x.operation_id@ == out.0@ && summarizes(out.2, x));
                Ok(out)
            },
            None => {
                let mut text: Vec<char> = Vec::new();
                push_text(&mut text, "Operation ");
                push_text(&mut text, id.as_str());
                push_text(&mut text, " not found after submission");
                Err(api_error("OPERATION_NOT_FOUND", string_from_chars(&text), now))
            },
        }
    }
}

} // verus!
