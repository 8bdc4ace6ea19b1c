//! Parameters and results of the JSON-RPC document, search, health and
//! service methods.

use vstd::prelude::*;
use crate::text::string_views;

verus! {

/// Parameters of `document.index`.
#[derive(Debug, Clone)]
pub struct IndexDocumentParams {
    pub id: String,
    pub title: Option<String>,
    pub content: String,
    pub path: Option<String>,
    pub metadata: Option<Vec<(String, String)>>,
}

/// Result of `document.index`.
#[derive(Debug, Clone)]
pub struct IndexDocumentResult {
    pub success: bool,
    pub message: String,
    pub document_id: String,
}

/// Parameters of `document.get`.
#[derive(Debug, Clone)]
pub struct GetDocumentParams {
    pub id: String,
}

/// Result of `document.get`.
#[derive(Debug, Clone)]
pub struct GetDocumentResult {
    pub id: String,
    pub found: bool,
    pub content: Option<String>,
    pub title: Option<String>,
    pub metadata: Option<Vec<(String, String)>>,
}

/// Parameters of `document.update`.
#[derive(Debug, Clone)]
pub struct UpdateDocumentParams {
    pub id: String,
    pub title: Option<String>,
    pub content: Option<String>,
    pub path: Option<String>,
    pub metadata: Option<Vec<(String, String)>>,
}

/// Result of `document.update`.
#[derive(Debug, Clone)]
pub struct UpdateDocumentResult {
    pub success: bool,
    pub message: String,
    pub document_id: String,
}

/// Parameters of `document.delete`.
#[derive(Debug, Clone)]
pub struct DeleteDocumentParams {
    pub id: String,
}

/// Result of `document.delete`.
#[derive(Debug, Clone)]
pub struct DeleteDocumentResult {
    pub success: bool,
    pub message: String,
    pub document_id: String,
}

/// Parameters of `document.search`.
#[derive(Debug, Clone)]
pub struct SearchDocumentsParams {
    pub query: String,
    pub limit: Option<usize>,
    pub filters: Option<Vec<(String, String)>>,
    pub include_content: Option<bool>,
}

/// One check of a health report.
#[derive(Debug, Clone)]
pub struct HealthCheckItem {
    pub status: String,
    pub message: Option<String>,
}

/// Result of `health.check`.
#[derive(Debug, Clone)]
pub struct HealthCheckResult {
    pub status: String,
    pub timestamp: String,
    pub checks: Vec<(String, HealthCheckItem)>,
}

/// Result of `health.ready`.
#[derive(Debug, Clone)]
pub struct ReadinessResult {
    pub ready: bool,
    pub checks: Vec<(String, HealthCheckItem)>,
}

/// Result of `health.live`.
#[derive(Debug, Clone, Copy)]
pub struct LivenessResult {
    pub alive: bool,
    pub uptime_seconds: u64,
}

/// What the service can do.
#[derive(Debug, Clone, Copy)]
pub struct ServiceCapabilities {
    pub document_indexing: bool,
    pub vector_search: bool,
    pub health_monitoring: bool,
    pub realtime_updates: bool,
}

/// Result of `service.info`.
#[derive(Debug, Clone)]
pub struct ServiceInfoResult {
    pub name: String,
    pub version: String,
    pub description: String,
    pub features: Vec<String>,
    pub protocol_version: String,
    pub capabilities: ServiceCapabilities,
}

/// The service description of version `version`: the indexer, its four
/// features, protocol 2.0, and every capability but real-time updates.
pub fn service_info(version: &str) -> (r: ServiceInfoResult)
    ensures
        r.name@ == "doc-indexer"@,
        r.version@ == version@,
        r.description@ == "Document indexing and search service with JSON-RPC 2.0 support"@,
        string_views(r.features@) == seq!["document_indexing"@, "vector_search"@, "health_monitoring"@, "json_rpc"@],
        r.protocol_version@ == "2.0"@,
        r.capabilities == (ServiceCapabilities {
            document_indexing: true,
            vector_search: true,
            health_monitoring: true,
            realtime_updates: false,
        }),
{
    let features = vec![
        "document_indexing".to_owned(),
        "vector_search".to_owned(),
        "health_monitoring".to_owned(),
        "json_rpc".to_owned(),
    ];
    assert(string_views(features@) =~= seq!["document_indexing"@, "vector_search"@, "health_monitoring"@, "json_rpc"@]);
    ServiceInfoResult {
        name: "doc-indexer".to_owned(),
        version: version.to_owned(),
        description: "Document indexing and search service with JSON-RPC 2.0 support".to_owned(),
        features,
        protocol_version: "2.0".to_owned(),
        capabilities: ServiceCapabilities {
            document_indexing: true,
            vector_search: true,
            health_monitoring: true,
            realtime_updates: false,
        },
    }
}

} // verus!
