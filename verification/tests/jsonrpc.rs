use doc_indexer::jsonrpc::{
    batch_plan, dispatch, empty_batch_response, route_tool, JsonRpcRequest, RpcMethod, INVALID_PARAMS, INVALID_REQUEST,
    METHOD_NOT_FOUND, PARSE_ERROR,
};

fn request(version: &str, method: &str, id: i64) -> JsonRpcRequest {
    JsonRpcRequest {
        jsonrpc: version.to_string(),
        method: method.to_string(),
        params: None,
        id: Some(serde_json::Value::from(id)),
    }
}

#[test]
fn test_valid_jsonrpc_request() {
    let r = request("2.0", "service.info", 1);
    assert_eq!(dispatch(&r).unwrap(), RpcMethod::ServiceInfo);
}

#[test]
fn test_invalid_jsonrpc_version() {
    let r = request("1.0", "service.info", 1);
    let e = dispatch(&r).unwrap_err();
    assert_eq!(e.code, INVALID_REQUEST);
    assert_eq!(e.message, "Invalid Request");
    assert!(e.data.is_none());
}

#[test]
fn test_batch_request() {
    let batch = vec![request("2.0", "service.info", 1), request("2.0", "health.check", 2)];
    let routed: Vec<RpcMethod> = batch.iter().map(|r| dispatch(r).unwrap()).collect();
    assert_eq!(routed, vec![RpcMethod::ServiceInfo, RpcMethod::HealthCheck]);
}

#[test]
fn test_method_not_found() {
    let r = request("2.0", "nonexistent.method", 1);
    let e = dispatch(&r).unwrap_err();
    assert_eq!(e.code, METHOD_NOT_FOUND);
    assert_eq!(e.message, "Method not found");
    assert_eq!(e.data, Some(vec![("method".to_string(), "nonexistent.method".to_string())]));
}

#[test]
fn every_method_name_is_routed() {
    let names = [
        ("tools/list", RpcMethod::ToolsList),
        ("tools/call", RpcMethod::ToolsCall),
        ("document.index", RpcMethod::DocumentIndex),
        ("document.get", RpcMethod::DocumentGet),
        ("document.update", RpcMethod::DocumentUpdate),
        ("document.delete", RpcMethod::DocumentDelete),
        ("document.search", RpcMethod::DocumentSearch),
        ("collection.list", RpcMethod::CollectionList),
        ("health.check", RpcMethod::HealthCheck),
        ("health.ready", RpcMethod::HealthReady),
        ("health.live", RpcMethod::HealthLive),
        ("service.info", RpcMethod::ServiceInfo),
    ];
    for (name, method) in names {
        assert_eq!(dispatch(&request("2.0", name, 7)).unwrap(), method);
    }
}

#[test]
fn tool_calls_are_routed_by_name() {
    assert_eq!(route_tool(Some("search_documents")).unwrap(), RpcMethod::DocumentSearch);
    assert_eq!(route_tool(Some("index_document")).unwrap(), RpcMethod::DocumentIndex);
    assert_eq!(route_tool(Some("list_collections")).unwrap(), RpcMethod::CollectionList);
    assert_eq!(route_tool(Some("get_health_status")).unwrap(), RpcMethod::HealthCheck);
    let missing = route_tool(None).unwrap_err();
    assert_eq!(missing.code, INVALID_PARAMS);
    assert_eq!(missing.message, "Invalid params");
    assert_eq!(missing.data, Some(vec![("details".to_string(), "Missing 'name' parameter".to_string())]));
    let unknown = route_tool(Some("make_coffee")).unwrap_err();
    assert_eq!(unknown.code, METHOD_NOT_FOUND);
    assert_eq!(unknown.data, Some(vec![("method".to_string(), "make_coffee".to_string())]));
}

#[test]
fn empty_batch_gets_one_invalid_request() {
    let r = empty_batch_response();
    assert_eq!(r.len(), 1);
    assert!(r[0].result.is_none());
    assert_eq!(r[0].error.as_ref().unwrap().code, INVALID_REQUEST);
    assert!(r[0].id.is_none());
    assert_eq!(r[0].jsonrpc, "2.0");
}

#[test]
fn batch_elements_are_answered_one_by_one() {
    let plan = batch_plan(&Vec::new());
    assert_eq!(plan.len(), 1);
    assert_eq!(plan[0].as_ref().unwrap_err().code, INVALID_REQUEST);
    let items = vec![
        Some(request("2.0", "service.info", 1)),
        None,
        Some(request("1.0", "service.info", 3)),
        Some(request("2.0", "nope", 4)),
    ];
    let plan = batch_plan(&items);
    assert_eq!(plan.len(), 4);
    assert_eq!(*plan[0].as_ref().unwrap(), RpcMethod::ServiceInfo);
    assert_eq!(plan[1].as_ref().unwrap_err().code, PARSE_ERROR);
    assert_eq!(plan[2].as_ref().unwrap_err().code, INVALID_REQUEST);
    assert_eq!(plan[3].as_ref().unwrap_err().code, METHOD_NOT_FOUND);
}
