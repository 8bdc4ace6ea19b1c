//! The REST protocol adapter's decisions: its error bodies, the answers of
//! its probes, and the size it reports for a collection.

use vstd::prelude::*;
use crate::text::{push_text, string_from_chars};

verus! {

/// The body of an error answered over REST.
#[derive(Debug, Clone)]
pub struct RestApiError {
    pub error: String,
    pub message: String,
    pub code: String,
    pub trace_id: Option<String>,
    pub details: Option<Vec<(String, String)>>,
}

/// `e` has this title, message and code, and no trace or details.
pub open spec fn rest_error_is(e: RestApiError, error: Seq<char>, message: Seq<char>, code: Seq<char>) -> bool {
    &&& e.error@ == error
    &&& e.message@ == message
    &&& e.code@ == code
    &&& e.trace_id is None
    &&& e.details is None
}

/// The body for a failed service call, carrying the failure's text.
pub fn rest_service_error(message: String) -> (e: RestApiError)
    ensures
        rest_error_is(e, "Internal server error"@, message@, "INTERNAL_ERROR"@),
{
    RestApiError {
        error: "Internal server error".to_owned(),
        message,
        code: "INTERNAL_ERROR".to_owned(),
        trace_id: None,
        details: None,
    }
}

/// The body for a collection that does not exist.
pub fn rest_collection_not_found(name: &str) -> (e: RestApiError)
    ensures
        rest_error_is(e, "Collection not found"@, "Collection '"@ + name@ + "' does not exist"@, "COLLECTION_NOT_FOUND"@),
{
    let mut v: Vec<char> = Vec::new();
    push_text(&mut v, "Collection '");
    push_text(&mut v, name);
    push_text(&mut v, "' does not exist");
    RestApiError {
        error: "Collection not found".to_owned(),
        message: string_from_chars(&v),
        code: "COLLECTION_NOT_FOUND".to_owned(),
        trace_id: None,
        details: None,
    }
}

/// The probes a client may send.
#[derive(Debug, Clone, Copy, PartialEq, Eq, Structural)]
pub enum Probe {
    Health,
    Readiness,
    Liveness,
}

/// The status a probe answers with while the service runs.
pub fn probe_status_text(probe: Probe) -> (r: &'static str)
    ensures
        r@ == match probe {
            Probe::Health => "healthy"@,
            Probe::Readiness => "ready"@,
            Probe::Liveness => "alive"@,
        },
{
    match probe {
        Probe::Health => "healthy",
        Probe::Readiness => "ready",
        Probe::Liveness => "alive",
    }
}

/// The size reported for a collection: 2048 bytes per document.
pub fn estimated_collection_bytes(document_count: i64) -> (r: i64)
    requires
        i64::MIN <= document_count * 2048 <= i64::MAX,
    ensures
        r == document_count * 2048,
{
    document_count * 2048
}

} // verus!
