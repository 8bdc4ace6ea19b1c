use doc_indexer::vector::in_collection;
use doc_indexer::mcp::{content_preview, search_results_text, tool_not_found, tool_search_limit, SearchHit};
use doc_indexer::documents::{check_document_id, document_fields, index_document_fields, indexed_result};
use doc_indexer::jsonrpc::VALIDATION_ERROR;
use doc_indexer::jsonrpc_types::IndexDocumentParams;
use doc_indexer::jsonrpc::{INVALID_PARAMS, INVALID_REQUEST, METHOD_NOT_FOUND};
use doc_indexer::metadata_filter::{text_filter_keeps, TextFilter};
use doc_indexer::rest_adapter::{
    estimated_collection_bytes, probe_status_text, rest_collection_not_found, rest_service_error, Probe,
};
use doc_indexer::rpc_adapter::{
    collection_name_param, collection_not_found, not_implemented, require_params, route_adapter_request,
    search_window, service_error, tool_call_method, AdapterMethod, FieldLookup, ParamsKind, ParamsOutcome,
    SERVER_ERROR,
};

fn pairs(v: &[(&str, &str)]) -> Option<Vec<(String, String)>> {
    Some(v.iter().map(|(a, b)| (a.to_string(), b.to_string())).collect())
}

#[test]
fn adapter_routes_by_version_and_method() {
    assert_eq!(route_adapter_request("2.0", "collection.create").unwrap(), AdapterMethod::CollectionCreate);
    assert_eq!(route_adapter_request("2.0", "collection.stats").unwrap(), AdapterMethod::CollectionStats);
    assert_eq!(route_adapter_request("2.0", "tools/call").unwrap(), AdapterMethod::ToolsCall);
    let e = route_adapter_request("1.0", "health.check").unwrap_err();
    assert_eq!(e.code, INVALID_REQUEST);
    assert_eq!(e.message, "Invalid JSON-RPC version");
    assert_eq!(e.data, pairs(&[("required", "2.0"), ("received", "1.0")]));
    let e = route_adapter_request("2.0", "document.update").unwrap_err();
    assert_eq!(e.code, METHOD_NOT_FOUND);
    assert_eq!(e.message, "Method 'document.update' not found");
    assert!(e.data.is_none());
}

#[test]
fn adapter_parameter_checks() {
    let e = require_params::<u32>(ParamsOutcome::Absent, ParamsKind::Search).unwrap_err();
    assert_eq!((e.code, e.message.as_str()), (INVALID_PARAMS, "Search parameters required"));
    let e = require_params::<u32>(ParamsOutcome::Invalid("missing field `path`".to_string()), ParamsKind::Index)
        .unwrap_err();
    assert_eq!(e.message, "Invalid index parameters");
    assert_eq!(e.data, pairs(&[("error", "missing field `path`")]));
    assert_eq!(require_params(ParamsOutcome::Parsed(7u32), ParamsKind::Collection).unwrap(), 7);

    assert_eq!(collection_name_param(FieldLookup::NoParams).unwrap_err().message, "Parameters required");
    assert_eq!(collection_name_param(FieldLookup::Missing).unwrap_err().message, "Collection name required");
    assert_eq!(
        collection_name_param(FieldLookup::NotString).unwrap_err().message,
        "Collection name must be a string"
    );
    assert_eq!(collection_name_param(FieldLookup::Found("docs".to_string())).unwrap(), "docs");

    assert_eq!(tool_call_method(FieldLookup::Found("search_documents".to_string())).unwrap(), "document.search");
    assert_eq!(tool_call_method(FieldLookup::Found("list_collections".to_string())).unwrap(), "collection.list");
    let e = tool_call_method(FieldLookup::Found("paint".to_string())).unwrap_err();
    assert_eq!((e.code, e.message.as_str()), (METHOD_NOT_FOUND, "Unknown tool: paint"));
    assert_eq!(tool_call_method(FieldLookup::NoParams).unwrap_err().message, "Tool call parameters required");
    assert_eq!(tool_call_method(FieldLookup::NotString).unwrap_err().message, "Tool name must be a string");

    let e = service_error("disk full");
    assert_eq!((e.code, e.message.as_str()), (SERVER_ERROR, "Internal server error"));
    assert_eq!(e.data, pairs(&[("error", "disk full"), ("type", "ZeroLatencyError")]));
    assert_eq!(collection_not_found("c9").data, pairs(&[("collection", "c9")]));
    assert_eq!(not_implemented(AdapterMethod::DocumentGet).unwrap().message, "Document retrieval not yet implemented");
    assert!(not_implemented(AdapterMethod::HealthCheck).is_none());
    assert_eq!(search_window(None, None), (10, 0));
    assert_eq!(search_window(Some(3), Some(6)), (3, 6));
}

#[test]
fn rest_adapter_answers() {
    let e = rest_collection_not_found("docs");
    assert_eq!(e.error, "Collection not found");
    assert_eq!(e.message, "Collection 'docs' does not exist");
    assert_eq!(e.code, "COLLECTION_NOT_FOUND");
    let e = rest_service_error("boom".to_string());
    assert_eq!((e.error.as_str(), e.message.as_str(), e.code.as_str()), ("Internal server error", "boom", "INTERNAL_ERROR"));
    assert_eq!(probe_status_text(Probe::Health), "healthy");
    assert_eq!(probe_status_text(Probe::Readiness), "ready");
    assert_eq!(probe_status_text(Probe::Liveness), "alive");
    assert_eq!(estimated_collection_bytes(3), 6144);
}

#[test]
fn metadata_filters_on_text() {
    let eq = TextFilter::Equals("guide".to_string());
    assert!(text_filter_keeps(true, Some("guide"), &eq));
    assert!(!text_filter_keeps(true, Some("guides"), &eq));
    assert!(!text_filter_keeps(false, None, &eq));
    assert!(!text_filter_keeps(true, None, &eq));
    let part = TextFilter::Contains("ide".to_string());
    assert!(text_filter_keeps(true, Some("guide"), &part));
    let options = TextFilter::In(vec!["a".to_string(), "b".to_string()]);
    assert!(text_filter_keeps(true, Some("b"), &options));
    assert!(!text_filter_keeps(true, Some("c"), &options));
    let dates = TextFilter::DateRange { start: None, end: None };
    assert!(text_filter_keeps(true, None, &dates));
    assert!(!text_filter_keeps(false, None, &dates));
}

#[test]
fn search_tool_text() {
    assert_eq!(search_results_text("rust", &Vec::new()), "No documents found for query: 'rust'");
    let hits = vec![
        SearchHit { document_id: "d1".to_string(), score_text: "0.910".to_string(), content: "short".to_string() },
        SearchHit { document_id: "d2".to_string(), score_text: "0.500".to_string(), content: "x".repeat(250) },
    ];
    let text = search_results_text("rust", &hits);
    let expected = format!(
        "Found 2 documents for query 'rust':\n\n1. Document ID: d1\n   Score: 0.910\n   Content: short\n\n2. Document ID: d2\n   Score: 0.500\n   Content: {}...\n\n",
        "x".repeat(200)
    );
    assert_eq!(text, expected);
    assert_eq!(content_preview("abc"), "abc");
    let e = tool_not_found("paint");
    assert_eq!(e.message, "Tool not found");
    assert_eq!(e.data, Some(vec![("tool_name".to_string(), "paint".to_string())]));
    assert_eq!(tool_search_limit(None), 10);
    assert_eq!(tool_search_limit(Some(4)), 4);
}

#[test]
fn document_ids_and_defaults() {
    assert!(check_document_id("550e8400-e29b-41d4-a716-446655440000").is_ok());
    assert!(check_document_id("550e8400e29b41d4a716446655440000").is_ok());
    let e = check_document_id("not-a-uuid").unwrap_err();
    assert_eq!(e.code, VALIDATION_ERROR);
    assert_eq!(e.data, pairs(&[("field", "id"), ("details", "Invalid UUID format")]));
    assert_eq!(
        document_fields(None, None, None),
        ("Untitled".to_string(), String::new(), "/tmp/unknown".to_string())
    );
    let params = IndexDocumentParams {
        id: "550e8400-e29b-41d4-a716-446655440000".to_string(),
        title: Some("Guide".to_string()),
        content: "text".to_string(),
        path: None,
        metadata: None,
    };
    let f = index_document_fields(params).unwrap();
    assert_eq!(f.1, "Guide");
    assert_eq!(f.3, "/tmp/unknown");
    let r = indexed_result("d".to_string());
    assert!(r.success);
    assert_eq!(r.message, "Document indexed successfully");
}

#[test]
fn search_answers_and_collection_membership() {
    let e = doc_indexer::api::search_failed("index offline", 9);
    assert_eq!(e.code, "SEARCH_ERROR");
    assert_eq!(e.message, "Search failed: index offline");
    assert_eq!(e.timestamp, 9);
    assert_eq!(doc_indexer::api::response_collection(None), "default");
    assert_eq!(doc_indexer::api::response_collection(Some("c".to_string())), "c");

    assert!(in_collection(Some("a"), "a"));
    assert!(!in_collection(Some("a"), "b"));
    assert!(in_collection(None, "zero_latency_docs"));
    assert!(in_collection(None, "default"));
    assert!(!in_collection(None, "b"));
}

#[test]
fn uuid_texts() {
    assert!(check_document_id("550e8400-e29b-41d4-a716-446655440000").is_ok());
    assert!(check_document_id("550E8400E29B41D4A716446655440000").is_ok());
    assert!(check_document_id("{550e8400-e29b-41d4-a716-446655440000}").is_ok());
    assert!(check_document_id("URN:uuid:550e8400-e29b-41d4-a716-446655440000").is_ok());
    assert!(check_document_id("550e8400-e29b-41d4-a716-44665544000g").is_err());
    assert!(check_document_id("550e8400e29b-41d4-a716-4466554400000").is_err());
}
