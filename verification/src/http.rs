//! The REST API's requests and responses, and the decisions its handlers
//! make: pagination of document listings, document summaries, indexing
//! filters, error statuses, and the fixed answers of the server endpoints.

use vstd::prelude::*;
use crate::jsonrpc::ZeroLatencyError;
use crate::text::{chars_of, copy_names, decimal, push_str, u64_to_string, seq_ends_with, str_ends_with, str_eq, string_from_chars, string_views};
use vstd::string::StringSliceAdditionalSpecFns;

verus! {

/// The collection used when a request names none.
pub open spec fn default_collection() -> Seq<char> {
    "zero_latency_docs"@
}

/// The result of a document lookup.
#[derive(Debug, Clone)]
pub struct GetDocumentResponse {
    pub id: String,
    pub found: bool,
    pub content: Option<String>,
    pub metadata: Option<Vec<(String, String)>>,
}

/// A search request.
#[derive(Debug, Clone)]
pub struct SearchRequest {
    pub query: String,
    pub collection: Option<String>,
    pub limit: Option<usize>,
    pub filters: Option<Vec<(String, String)>>,
}

/// What the service is.
#[derive(Debug, Clone)]
pub struct ServiceInfoResponse {
    pub name: String,
    pub version: String,
    pub description: String,
    pub features: Vec<String>,
}

/// A request to index the documents under a path.
#[derive(Debug, Clone)]
pub struct IndexPathRequest {
    pub path: String,
    pub collection: Option<String>,
    pub recursive: Option<bool>,
    pub force: Option<bool>,
    pub safe_patterns: Option<Vec<String>>,
    pub ignore_patterns: Option<Vec<String>>,
    pub clear_default_ignores: Option<bool>,
    pub follow_symlinks: Option<bool>,
    pub case_sensitive: Option<bool>,
}

/// A request to index a collection again from scratch.
#[derive(Debug, Clone)]
pub struct ReindexRequest {
    pub collection: Option<String>,
    pub force: Option<bool>,
    pub safe_patterns: Option<Vec<String>>,
    pub ignore_patterns: Option<Vec<String>>,
    pub clear_default_ignores: Option<bool>,
    pub follow_symlinks: Option<bool>,
    pub case_sensitive: Option<bool>,
}

/// A request to start the server.
#[derive(Debug, Clone)]
pub struct ServerStartRequest {
    pub host: Option<String>,
    pub port: Option<u16>,
}

/// A request to stop the server.
#[derive(Debug, Clone, Copy)]
pub struct ServerStopRequest {}

/// The answer to a server start or stop request.
#[derive(Debug, Clone)]
pub struct ServerResponse {
    pub success: bool,
    pub message: String,
    pub status: String,
}

/// The service status, as the command-line client reads it.
#[derive(Debug, Clone)]
pub struct ApiStatusResponse {
    pub status: String,
    pub version: String,
    pub uptime_seconds: u64,
    pub total_documents: u64,
    pub index_size_bytes: u64,
    pub last_index_update: Option<String>,
    pub docs_path: Option<String>,
}

/// One listed document.
#[derive(Debug, Clone)]
pub struct DocumentSummary {
    pub id: String,
    pub title: String,
    pub path: String,
    pub size: u64,
    pub last_modified: String,
}

/// A page of the documents of a collection.
#[derive(Debug, Clone)]
pub struct ListDocumentsResponse {
    pub documents: Vec<DocumentSummary>,
    pub total_count: u64,
    pub page: u64,
    pub per_page: u64,
    pub total_pages: u64,
    pub index_size_bytes: u64,
}

/// The query of a document listing.
#[derive(Debug, Clone)]
pub struct ListDocumentsQuery {
    pub collection: Option<String>,
    pub page: Option<u64>,
    pub limit: Option<u64>,
}

/// A request to create a collection.
#[derive(Debug, Clone)]
pub struct CreateCollectionApiRequest {
    pub name: String,
    pub vector_size: u64,
    pub distance_metric: Option<String>,
    pub description: Option<String>,
}

/// The answer to a collection deletion.
#[derive(Debug, Clone)]
pub struct DeleteCollectionResponse {
    pub success: bool,
    pub message: String,
}

/// The query of the analytics endpoints.
#[derive(Debug, Clone, Copy)]
pub struct AnalyticsQuery {
    pub limit: Option<usize>,
}

/// Which files indexing takes and skips.
#[derive(Debug, Clone)]
pub struct IndexingFilters {
    pub safe_list: Vec<String>,
    pub ignore_list: Vec<String>,
    pub case_sensitive: bool,
    pub follow_symlinks: bool,
}

/// The listing's collection, page (at least one) and page size (at most 100).
pub open spec fn listing_params(q: ListDocumentsQuery) -> (Seq<char>, u64, u64) {
    let page = match q.page {
        Some(p) => if p < 1 { 1u64 } else { p },
        None => 1u64,
    };
    let per_page = match q.limit {
        Some(l) => if l > 100 { 100u64 } else { l },
        None => 50u64,
    };
    let collection = match q.collection {
        Some(c) => c@,
        None => default_collection(),
    };
    (collection, page, per_page)
}

/// The collection, page and page size of a document listing.
pub fn listing_parameters(q: &ListDocumentsQuery) -> (r: (String, u64, u64))
    ensures
        (r.0@, r.1, r.2) == listing_params(*q),
{
    let collection = match &q.collection {
        Some(c) => c.clone(),
        None => "zero_latency_docs".to_owned(),
    };
    let page: u64 = match q.page {
        Some(p) => if p < 1 { 1 } else { p },
        None => 1,
    };
    let per_page: u64 = match q.limit {
        Some(l) => if l > 100 { 100 } else { l },
        None => 50,
    };
    (collection, page, per_page)
}

/// The number of pages `total` documents fill, `per_page` to a page: none
/// for no documents, and `u64::MAX` when pages hold nothing.
pub open spec fn page_count(total: u64, per_page: u64) -> u64 {
    if total == 0 {
        0
    } else if per_page == 0 {
        u64::MAX
    } else {
        ((total + per_page - 1) / (per_page as int)) as u64
    }
}

/// The number of pages of a listing.
pub fn total_pages(total: u64, per_page: u64) -> (r: u64)
    ensures
        r == page_count(total, per_page),
{
    if total == 0 {
        0
    } else if per_page == 0 {
        u64::MAX
    } else {
        let n: u128 = (total as u128 + per_page as u128 - 1) / per_page as u128;
        n as u64
    }
}

/// The pages of a listing hold every document and no page is empty: for
/// documents spread `per_page` to a page, the pages before the last hold
/// fewer than all of them, and all the pages hold at least all of them.
pub proof fn law_pages_cover_total(total: u64, per_page: u64)
    requires
        total > 0,
        per_page > 0,
    ensures
        (page_count(total, per_page) - 1) * per_page < total,
        total <= page_count(total, per_page) * per_page,
{
    let q = (total + per_page - 1) / (per_page as int);
    assert(q * per_page <= total + per_page - 1 < (q + 1) * per_page) by (nonlinear_arith)
        requires
            per_page > 0,
            q == (total + per_page - 1) / (per_page as int),
    ;
    assert(q <= total) by (nonlinear_arith)
        requires
            per_page > 0,
            total > 0,
            q == (total + per_page - 1) / (per_page as int),
    ;
    assert((q - 1) * per_page < total) by (nonlinear_arith)
        requires
            q * per_page <= total + per_page - 1,
    ;
    assert(total <= q * per_page) by (nonlinear_arith)
        requires
            total + per_page - 1 < (q + 1) * per_page,
    ;
}

/// The documents skipped before page `page`.
pub fn page_offset(page: u64, per_page: u64) -> (r: u64)
    requires
        page >= 1,
        (page - 1) * per_page <= u64::MAX,
    ensures
        r == (page - 1) * per_page,
{
    (page - 1) * per_page
}

/// How many results to fetch for a page: enough for the skipped documents
/// and the page, but at most 100.
pub fn search_limit(per_page: u64, skip: u64) -> (r: u64)
    requires
        per_page + skip <= u64::MAX,
    ensures
        r == if per_page + skip < 100 { per_page + skip } else { 100 },
{
    let n = per_page + skip;
    if n < 100 {
        n
    } else {
        100
    }
}

/// How many documents a page shows: a full page, or what is left after the
/// skipped documents.
pub fn documents_on_page(per_page: u64, total: u64, skip: u64) -> (r: u64)
    ensures
        r == if total >= skip {
            if per_page < total - skip { per_page } else { (total - skip) as u64 }
        } else {
            0
        },
{
    let left = total.saturating_sub(skip);
    if per_page < left {
        per_page
    } else {
        left
    }
}

/// The items of a page: `results` without the first `skip`, at most `take`.
pub fn page_of<T>(results: Vec<T>, skip: usize, take: usize) -> (r: Vec<T>)
    ensures
        r@ == if skip >= results@.len() {
            Seq::<T>::empty()
        } else if results@.len() - skip <= take {
            results@.subrange(skip as int, results@.len() as int)
        } else {
            results@.subrange(skip as int, skip + take)
        },
{
    let mut rest = results;
    if skip >= rest.len() {
        return Vec::new();
    }
    let mut page = rest.split_off(skip);
    if page.len() > take {
        page.truncate(take);
    }
    page
}

/// A document's listed title: "Untitled Document" for no title, the title
/// without a final ".md", or the title itself.
pub open spec fn listed_title(title: Seq<char>) -> Seq<char> {
    if title.len() == 0 {
        "Untitled Document"@
    } else if seq_ends_with(title, ".md"@) {
        title.subrange(0, title.len() - 3)
    } else {
        title
    }
}

/// The summary of a listed document.
pub fn document_summary(
    id: String,
    title: &str,
    url: Option<String>,
    content: &str,
    modified_date: Option<String>,
    last_modified: Option<String>,
) -> (r: DocumentSummary)
    requires
        content.spec_bytes().len() <= usize::MAX,
    ensures
        r.id == id,
        r.title@ == listed_title(title@),
        r.path@ == match url {
            Some(u) => u@,
            None => title@,
        },
        r.size == content.spec_bytes().len(),
        r.last_modified@ == match modified_date {
            Some(d) => d@,
            None => match last_modified {
                Some(d) => d@,
                None => "Unknown"@,
            },
        },
{
    proof {
        reveal_strlit(".md");
    }
    let shown: String = if title.is_empty() {
        "Untitled Document".to_owned()
    } else if str_ends_with(title, ".md") {
        let cs = chars_of(title);
        let mut head: Vec<char> = Vec::new();
        let n = cs.len() - 3;
        let mut i: usize = 0;
        while i < n
            invariant
                i <= n,
                n == cs@.len() - 3,
                cs@ == title@,
                head@ == cs@.take(i as int),
            decreases n - i,
        {
            head.push(cs[i]);
            assert(head@ =~= cs@.take(i + 1));
            i = i + 1;
        }
        assert(head@ =~= title@.subrange(0, title@.len() - 3));
        string_from_chars(&head)
    } else {
        title.to_owned()
    };
    let path = match url {
        Some(u) => u,
        None => title.to_owned(),
    };
    let last = match modified_date {
        Some(d) => d,
        None => match last_modified {
            Some(d) => d,
            None => "Unknown".to_owned(),
        },
    };
    let size: usize = content.len();
    DocumentSummary { id, title: shown, path, size: size as u64, last_modified: last }
}

/// The listing answered when the collection cannot be found: no documents.
pub fn empty_listing(page: u64, per_page: u64) -> (r: ListDocumentsResponse)
    ensures
        r.documents@.len() == 0,
        r.total_count == 0,
        r.page == page,
        r.per_page == per_page,
        r.total_pages == 0,
        r.index_size_bytes == 0,
{
    ListDocumentsResponse { documents: Vec::new(), total_count: 0, page, per_page, total_pages: 0, index_size_bytes: 0 }
}

/// The estimated index size of `vector_count` vectors: 384 four-byte numbers
/// and 100 bytes of metadata each.
pub fn estimated_size_bytes(vector_count: u64) -> (r: u64)
    requires
        vector_count * 1636 <= u64::MAX,
    ensures
        r == vector_count * 1636,
{
    vector_count * (384 * 4 + 100)
}

/// Whether a request's patterns or switches call for filters.
pub open spec fn filters_requested(
    safe: Option<Vec<String>>,
    ignore: Option<Vec<String>>,
    clear_default: Option<bool>,
    follow: Option<bool>,
    case: Option<bool>,
) -> bool {
    safe is Some || ignore is Some || clear_default is Some || follow is Some || case is Some
}

/// The indexing filters a request asks for: none when it sets no pattern or
/// switch; otherwise its safe patterns, the default ignores (unless it clears
/// them) followed by its own, and its switches (off when unset).
pub fn indexing_filters(
    safe: Option<Vec<String>>,
    ignore: Option<Vec<String>>,
    clear_default: Option<bool>,
    follow: Option<bool>,
    case: Option<bool>,
    default_ignores: Vec<String>,
) -> (r: Option<IndexingFilters>)
    ensures
        !filters_requested(safe, ignore, clear_default, follow, case) ==> r is None,
        filters_requested(safe, ignore, clear_default, follow, case) ==> (r matches Some(f) && {
            &&& f.safe_list@ == match safe {
                Some(s) => s@,
                None => Seq::empty(),
            }
            &&& f.ignore_list@ == (if clear_default == Some(true) { Seq::empty() } else { default_ignores@ })
                + match ignore {
                Some(i) => i@,
                None => Seq::empty(),
            }
            &&& f.case_sensitive == (case == Some(true))
            &&& f.follow_symlinks == (follow == Some(true))
        }),
{
    if !(safe.is_some() || ignore.is_some() || clear_default.is_some() || follow.is_some() || case.is_some()) {
        return None;
    }
    let clear = match clear_default {
        Some(b) => b,
        None => false,
    };
    let mut ignore_list = if clear {
        Vec::new()
    } else {
        default_ignores
    };
    if let Some(extra) = ignore {
        let mut extra = extra;
        ignore_list.append(&mut extra);
    }
    let safe_list = match safe {
        Some(s) => s,
        None => Vec::new(),
    };
    Some(IndexingFilters {
        safe_list,
        ignore_list,
        case_sensitive: match case {
            Some(b) => b,
            None => false,
        },
        follow_symlinks: match follow {
            Some(b) => b,
            None => false,
        },
    })
}

/// Whether indexing into `name` first creates the collection: when it is
/// not the default collection and no existing collection has that name.
pub fn needs_collection_creation(name: &str, existing: &Vec<String>) -> (r: bool)
    ensures
        r == (name@ != default_collection() && !string_views(existing@).contains(name@)),
{
    if str_eq(name, "zero_latency_docs") {
        return false;
    }
    let mut i: usize = 0;
    while i < existing.len()
        invariant
            i <= existing.len(),
            forall|k: int| 0 <= k < i ==> existing@[k]@ != name@,
        decreases existing.len() - i,
    {
        if str_eq(existing[i].as_str(), name) {
            assert(string_views(existing@)[i as int] == name@);
            return false;
        }
        i = i + 1;
    }
    assert(!string_views(existing@).contains(name@)) by {
        if string_views(existing@).contains(name@) {
            let k = choose|k: int| 0 <= k < existing@.len() && string_views(existing@)[k] == name@;
            assert(existing@[k]@ == name@);
        }
    }
    true
}

/// The collection an indexing request goes into: the one it names, else the
/// default collection.
pub fn index_collection(collection: Option<String>) -> (r: String)
    ensures
        r@ == match collection {
            Some(c) => c@,
            None => default_collection(),
        },
{
    match collection {
        Some(c) => c,
        None => "zero_latency_docs".to_owned(),
    }
}

/// Whether indexing descends into subdirectories: yes unless the request
/// says no.
pub fn index_recursive(recursive: Option<bool>) -> (r: bool)
    ensures
        r == (recursive != Some(false)),
{
    match recursive {
        Some(b) => b,
        None => true,
    }
}

/// The request that creates collection `name` before indexing `path` into
/// it: 384-dimensional vectors compared by cosine distance, described as
/// made for indexing `path`.
pub fn index_collection_request(name: String, path: &str) -> (r: CreateCollectionApiRequest)
    ensures
        r.name == name,
        r.vector_size == 384,
        r.distance_metric matches Some(m) && m@ == "cosine"@,
        r.description matches Some(d) && d@ == "Collection created for indexing "@ + path@,
{
    let mut description = "Collection created for indexing ".to_owned();
    push_str(&mut description, path);
    CreateCollectionApiRequest {
        name,
        vector_size: 384,
        distance_metric: Some("cosine".to_owned()),
        description: Some(description),
    }
}

/// The status and message of a successful indexing of `path`.
pub fn index_success(documents_processed: u64, path: &str) -> (r: (String, String))
    ensures
        r.0@ == "success"@,
        r.1@ == "Successfully indexed "@ + decimal(documents_processed as nat) + " documents from path: "@ + path@,
{
    let mut message = "Successfully indexed ".to_owned();
    let n = u64_to_string(documents_processed);
    push_str(&mut message, n.as_str());
    push_str(&mut message, " documents from path: ");
    push_str(&mut message, path);
    ("success".to_owned(), message)
}

/// Where a reindexing stands: not started (with the collection asked for,
/// if any), waiting on a step for `collection`, or over.
#[derive(Debug, Clone)]
pub enum ReindexState {
    Start { collection: Option<String> },
    Deleting { collection: String },
    Creating { collection: String },
    FindingDirectory { collection: String },
    Indexing { collection: String },
    Done,
    Failed,
}

/// What happened to the step last asked for.
#[derive(Debug, Clone)]
pub enum ReindexEvent {
    Begin,
    Deleted,
    Created,
    Directory { path: String },
    DirectoryUnreadable { message: String },
    Indexed { documents_processed: u64 },
    StepFailed { error: ZeroLatencyError },
}

/// What the handler does next.
#[derive(Debug, Clone)]
pub enum ReindexAction {
    /// Delete the collection, clearing its vectors.
    DeleteCollection { name: String },
    /// Create the collection afresh.
    CreateCollection { request: CreateCollectionApiRequest },
    /// Read the current working directory, the path reindexed.
    ReadWorkingDirectory,
    /// Index the documents under `path` (and its subdirectories) into the collection.
    Index { path: String, recursive: bool, collection: String },
    /// Update the collection's statistics and answer `status` with `message`.
    Finish { collection: String, documents_processed: u64, status: String, message: String },
    /// Answer with the error.
    Fail { error: ZeroLatencyError },
    /// Nothing: the event does not belong to this state.
    Nothing,
}

/// The next state and action of a reindexing in `state` on `event`: delete
/// the collection (the one asked for, else the default), create it again
/// with 384 dimensions and cosine distance, read the working directory,
/// index it recursively, and finish with "completed"; a failed step ends it
/// with that step's error (an unreadable directory as an outside-service
/// error of the file system). Any other event changes nothing.
pub open spec fn reindex_transition(state: ReindexState, event: ReindexEvent, next: ReindexState, action: ReindexAction) -> bool {
    match (state, event) {
        (ReindexState::Start { collection }, ReindexEvent::Begin) => {
            let name = match collection {
                Some(c) => c@,
                None => default_collection(),
            };
            &&& next matches ReindexState::Deleting { collection: n } && n@ == name
            &&& action matches ReindexAction::DeleteCollection { name: a } && a@ == name
        },
        (ReindexState::Deleting { collection }, ReindexEvent::Deleted) => {
            &&& next == ReindexState::Creating { collection }
            &&& action matches ReindexAction::CreateCollection { request } && {
                &&& request.name == collection
                &&& request.vector_size == 384
                &&& request.distance_metric matches Some(m) && m@ == "cosine"@
                &&& request.description matches Some(d) && d@ == "Reindexed collection: "@ + collection@
            }
        },
        (ReindexState::Creating { collection }, ReindexEvent::Created) => {
            &&& next == ReindexState::FindingDirectory { collection }
            &&& action == ReindexAction::ReadWorkingDirectory
        },
        (ReindexState::FindingDirectory { collection }, ReindexEvent::Directory { path }) => {
            &&& next == ReindexState::Indexing { collection }
            &&& action matches ReindexAction::Index { path: p, recursive, collection: c } && p == path && recursive
                && c == collection
        },
        (ReindexState::FindingDirectory { collection }, ReindexEvent::DirectoryUnreadable { message }) => {
            &&& next == ReindexState::Failed
            &&& action matches ReindexAction::Fail { error: ZeroLatencyError::ExternalService { service, message: m } }
                && service@ == "filesystem"@ && m == message
        },
        (ReindexState::Indexing { collection }, ReindexEvent::Indexed { documents_processed }) => {
            &&& next == ReindexState::Done
            &&& action matches ReindexAction::Finish { collection: c, documents_processed: n, status, message } && c
                == collection && n == documents_processed && status@ == "completed"@ && message@ == "Successfully reindexed "@
                + decimal(documents_processed as nat) + " documents"@
        },
        (ReindexState::Deleting { .. }, ReindexEvent::StepFailed { error })
        | (ReindexState::Creating { .. }, ReindexEvent::StepFailed { error })
        | (ReindexState::Indexing { .. }, ReindexEvent::StepFailed { error }) => {
            &&& next == ReindexState::Failed
            &&& action == ReindexAction::Fail { error }
        },
        (s, _) => next == s && action == ReindexAction::Nothing,
    }
}

/// One step of a reindexing: the next state and what to do, as
/// `reindex_transition` says.
pub fn reindex_step(state: ReindexState, event: ReindexEvent) -> (r: (ReindexState, ReindexAction))
    ensures
        reindex_transition(state, event, r.0, r.1),
{
    match (state, event) {
        (ReindexState::Start { collection }, ReindexEvent::Begin) => {
            let name = index_collection(collection);
            let again = name.clone();
            (ReindexState::Deleting { collection: name }, ReindexAction::DeleteCollection { name: again })
        },
        (ReindexState::Deleting { collection }, ReindexEvent::Deleted) => {
            let mut description = "Reindexed collection: ".to_owned();
            push_str(&mut description, collection.as_str());
            let request = CreateCollectionApiRequest {
                name: collection.clone(),
                vector_size: 384,
                distance_metric: Some("cosine".to_owned()),
                description: Some(description),
            };
            (ReindexState::Creating { collection }, ReindexAction::CreateCollection { request })
        },
        (ReindexState::Creating { collection }, ReindexEvent::Created) => {
            (ReindexState::FindingDirectory { collection }, ReindexAction::ReadWorkingDirectory)
        },
        (ReindexState::FindingDirectory { collection }, ReindexEvent::Directory { path }) => {
            let c = collection.clone();
            (ReindexState::Indexing { collection }, ReindexAction::Index { path, recursive: true, collection: c })
        },
        (ReindexState::FindingDirectory { collection: _ }, ReindexEvent::DirectoryUnreadable { message }) => {
            let error = ZeroLatencyError::ExternalService { service: "filesystem".to_owned(), message };
            (ReindexState::Failed, ReindexAction::Fail { error })
        },
        (ReindexState::Indexing { collection }, ReindexEvent::Indexed { documents_processed }) => {
            let mut message = "Successfully reindexed ".to_owned();
            let n = u64_to_string(documents_processed);
            push_str(&mut message, n.as_str());
            push_str(&mut message, " documents");
            (
                ReindexState::Done,
                ReindexAction::Finish { collection, documents_processed, status: "completed".to_owned(), message },
            )
        },
        (ReindexState::Deleting { .. }, ReindexEvent::StepFailed { error })
        | (ReindexState::Creating { .. }, ReindexEvent::StepFailed { error })
        | (ReindexState::Indexing { .. }, ReindexEvent::StepFailed { error }) => {
            (ReindexState::Failed, ReindexAction::Fail { error })
        },
        (s, _) => (s, ReindexAction::Nothing),
    }
}

/// The HTTP status and message an error is answered with.
pub open spec fn error_status(err: ZeroLatencyError) -> (u16, Seq<char>) {
    match err {
        ZeroLatencyError::Validation { field, message } => (400, field@ + ": "@ + message@),
        ZeroLatencyError::NotFound { resource } => (404, "Not found: "@ + resource@),
        ZeroLatencyError::Configuration { message } => (500, message@),
        ZeroLatencyError::Internal { message } => (500, message@),
        ZeroLatencyError::ExternalService { service, message } => (502, service@ + ": "@ + message@),
        ZeroLatencyError::Database { message } => (500, message@),
        ZeroLatencyError::Network { message } => (502, message@),
        ZeroLatencyError::Serialization { message } => (500, message@),
        ZeroLatencyError::PermissionDenied { operation } => (403, "Permission denied: "@ + operation@),
    }
}

/// `a: b`.
fn colon_pair(a: &str, b: &str) -> (r: String)
    ensures
        r@ == a@ + ": "@ + b@,
{
    let mut r = a.to_owned();
    push_str(&mut r, ": ");
    push_str(&mut r, b);
    r
}

/// `prefix` followed by `s`.
fn prefixed(prefix: &str, s: &str) -> (r: String)
    ensures
        r@ == prefix@ + s@,
{
    let mut r = prefix.to_owned();
    push_str(&mut r, s);
    r
}

/// The status and message an error is answered with.
pub fn app_error_status(err: &ZeroLatencyError) -> (r: (u16, String))
    ensures
        (r.0, r.1@) == error_status(*err),
{
    match err {
        ZeroLatencyError::Validation { field, message } => (400, colon_pair(field.as_str(), message.as_str())),
        ZeroLatencyError::NotFound { resource } => (404, prefixed("Not found: ", resource.as_str())),
        ZeroLatencyError::Configuration { message } => (500, message.clone()),
        ZeroLatencyError::Internal { message } => (500, message.clone()),
        ZeroLatencyError::ExternalService { service, message } => (502, colon_pair(service.as_str(), message.as_str())),
        ZeroLatencyError::Database { message } => (500, message.clone()),
        ZeroLatencyError::Network { message } => (502, message.clone()),
        ZeroLatencyError::Serialization { message } => (500, message.clone()),
        ZeroLatencyError::PermissionDenied { operation } => (403, prefixed("Permission denied: ", operation.as_str())),
    }
}

/// The answer to a start request: the server is running already.
pub fn start_server_response() -> (r: ServerResponse)
    ensures
        r.success && r.message@ == "Server is already running"@ && r.status@ == "running"@,
{
    ServerResponse { success: true, message: "Server is already running".to_owned(), status: "running".to_owned() }
}

/// The answer to a stop request: shutdown has begun.
pub fn stop_server_response() -> (r: ServerResponse)
    ensures
        r.success && r.message@ == "Server shutdown initiated"@ && r.status@ == "stopping"@,
{
    ServerResponse { success: true, message: "Server shutdown initiated".to_owned(), status: "stopping".to_owned() }
}

/// The answer to a deletion: whether a collection was deleted.
pub fn delete_collection_response(deleted: bool) -> (r: DeleteCollectionResponse)
    ensures
        r.success == deleted,
        r.message@ == if deleted { "Collection deleted successfully"@ } else { "Collection not found"@ },
{
    DeleteCollectionResponse {
        success: deleted,
        message: if deleted {
            "Collection deleted successfully".to_owned()
        } else {
            "Collection not found".to_owned()
        },
    }
}

/// The answer to a lookup of a document: indexed documents are not looked
/// up here, so none is found.
pub fn get_document_response(id: String) -> (r: GetDocumentResponse)
    ensures
        r.id == id && !r.found && r.content is None && r.metadata is None,
{
    GetDocumentResponse { id, found: false, content: None, metadata: None }
}

/// The service description of version `version`.
pub fn service_info_response(version: &str) -> (r: ServiceInfoResponse)
    ensures
        r.name@ == "doc-indexer"@,
        r.version@ == version@,
        r.description@ == "Document indexing and search service"@,
        string_views(r.features@) == seq!["document_indexing"@, "vector_search"@, "health_monitoring"@],
{
    let features = vec!["document_indexing".to_owned(), "vector_search".to_owned(), "health_monitoring".to_owned()];
    assert(string_views(features@) =~= seq!["document_indexing"@, "vector_search"@, "health_monitoring"@]);
    ServiceInfoResponse {
        name: "doc-indexer".to_owned(),
        version: version.to_owned(),
        description: "Document indexing and search service".to_owned(),
        features,
    }
}

/// The status report: healthy, with the given figures and documents path, and
/// no known last update.
pub fn api_status_response(version: &str, uptime_seconds: u64, total_documents: u64, index_size_bytes: u64, docs_path: String) -> (r: ApiStatusResponse)
    ensures
        r.status@ == "healthy"@,
        r.version@ == version@,
        r.uptime_seconds == uptime_seconds,
        r.total_documents == total_documents,
        r.index_size_bytes == index_size_bytes,
        r.last_index_update is None,
        r.docs_path == Some(docs_path),
{
    ApiStatusResponse {
        status: "healthy".to_owned(),
        version: version.to_owned(),
        uptime_seconds,
        total_documents,
        index_size_bytes,
        last_index_update: None,
        docs_path: Some(docs_path),
    }
}

} // verus!

verus! {

/// Settings of the HTTP server.
#[derive(Debug, Clone)]
pub struct ServerConfig {
    pub host: String,
    pub port: u16,
    pub timeout_seconds: u64,
    pub enable_cors: bool,
    pub cors_origins: Vec<String>,
}

impl Default for ServerConfig {
    /// All interfaces, port 8080, five minutes per request, cross-origin
    /// requests allowed from anywhere.
    fn default() -> (c: Self)
        ensures
            c.host@ == "0.0.0.0"@,
            c.port == 8080,
            c.timeout_seconds == 300,
            c.enable_cors,
            c.cors_origins@.len() == 0,
    {
        ServerConfig {
            host: "0.0.0.0".to_owned(),
            port: 8080,
            timeout_seconds: 300,
            enable_cors: true,
            cors_origins: Vec::new(),
        }
    }
}

/// Which origins cross-origin requests may come from.
#[derive(Debug, Clone)]
pub enum CorsOrigins {
    Any,
    Listed(Vec<String>),
}

/// The origins allowed: the configured ones when there are some and all of
/// them are valid header values (`all_valid`), else any origin.
pub fn cors_origins(config: &ServerConfig, all_valid: bool) -> (r: CorsOrigins)
    ensures
        (config.cors_origins@.len() > 0 && all_valid) ==> (r matches CorsOrigins::Listed(v) && string_views(v@)
            == string_views(config.cors_origins@)),
        !(config.cors_origins@.len() > 0 && all_valid) ==> r is Any,
{
    if config.cors_origins.len() > 0 && all_valid {
        CorsOrigins::Listed(copy_names(&config.cors_origins))
    } else {
        CorsOrigins::Any
    }
}

} // verus!
