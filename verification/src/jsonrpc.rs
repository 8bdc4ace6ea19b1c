//! JSON-RPC 2.0: error codes and error objects, responses, and the routing
//! of a request's method (and of a tool call's tool) to the operation that
//! serves it.

use vstd::prelude::*;
use crate::text::{push_str, seq_contains, str_contains, str_eq};

verus! {

/// The request is not valid JSON.
pub const PARSE_ERROR: i32 = -32700;
/// The request is not a valid request object.
pub const INVALID_REQUEST: i32 = -32600;
/// The method does not exist.
pub const METHOD_NOT_FOUND: i32 = -32601;
/// The parameters are not valid.
pub const INVALID_PARAMS: i32 = -32602;
/// The server failed.
pub const INTERNAL_ERROR: i32 = -32603;
/// The document does not exist.
pub const DOCUMENT_NOT_FOUND: i32 = -32000;
/// A field failed validation.
pub const VALIDATION_ERROR: i32 = -32001;
/// A search failed.
pub const SEARCH_ERROR: i32 = -32002;
/// Indexing failed.
pub const INDEXING_ERROR: i32 = -32003;

/// A JSON-RPC error; its data, when present, is an object of string fields.
#[derive(Debug, Clone)]
pub struct JsonRpcError {
    pub code: i32,
    pub message: String,
    pub data: Option<Vec<(String, String)>>,
}

/// The name/value views of an error's data fields.
pub open spec fn fields_view(d: Seq<(String, String)>) -> Seq<(Seq<char>, Seq<char>)> {
    d.map_values(|p: (String, String)| (p.0@, p.1@))
}

/// The error has this code and message and no data.
pub open spec fn plain_error(e: JsonRpcError, code: i32, message: Seq<char>) -> bool {
    e.code == code && e.message@ == message && e.data is None
}

/// The error has this code and message, and data with exactly these fields.
pub open spec fn error_with(e: JsonRpcError, code: i32, message: Seq<char>, fields: Seq<(Seq<char>, Seq<char>)>) -> bool {
    e.code == code && e.message@ == message && e.data is Some && fields_view(e.data->0@) == fields
}

/// A one-field data object.
pub(crate) fn field(name: &str, value: &str) -> (r: Vec<(String, String)>)
    ensures
        fields_view(r@) == seq![(name@, value@)],
{
    let mut r: Vec<(String, String)> = Vec::new();
    r.push((name.to_owned(), value.to_owned()));
    assert(fields_view(r@) =~= seq![(name@, value@)]);
    r
}

/// A two-field data object.
pub(crate) fn fields2(n1: &str, v1: &str, n2: &str, v2: &str) -> (r: Vec<(String, String)>)
    ensures
        fields_view(r@) == seq![(n1@, v1@), (n2@, v2@)],
{
    let mut r: Vec<(String, String)> = Vec::new();
    r.push((n1.to_owned(), v1.to_owned()));
    r.push((n2.to_owned(), v2.to_owned()));
    assert(fields_view(r@) =~= seq![(n1@, v1@), (n2@, v2@)]);
    r
}

impl JsonRpcError {
    /// The request could not be parsed.
    pub fn parse_error() -> (e: Self)
        ensures
            plain_error(e, PARSE_ERROR, "Parse error"@),
    {
        JsonRpcError { code: PARSE_ERROR, message: "Parse error".to_owned(), data: None }
    }

    /// The request is not a valid JSON-RPC request.
    pub fn invalid_request() -> (e: Self)
        ensures
            plain_error(e, INVALID_REQUEST, "Invalid Request"@),
    {
        JsonRpcError { code: INVALID_REQUEST, message: "Invalid Request".to_owned(), data: None }
    }

    /// No method is called `method`.
    pub fn method_not_found(method: &str) -> (e: Self)
        ensures
            error_with(e, METHOD_NOT_FOUND, "Method not found"@, seq![("method"@, method@)]),
    {
        JsonRpcError { code: METHOD_NOT_FOUND, message: "Method not found".to_owned(), data: Some(field("method", method)) }
    }

    /// The parameters are not valid, with details when known.
    pub fn invalid_params(details: Option<String>) -> (e: Self)
        ensures
            e.code == INVALID_PARAMS,
            e.message@ == "Invalid params"@,
            match details {
                Some(d) => e.data is Some && fields_view(e.data->0@) == seq![("details"@, d@)],
                None => e.data is None,
            },
    {
        let data = match details {
            Some(d) => Some(field("details", d.as_str())),
            None => None,
        };
        JsonRpcError { code: INVALID_PARAMS, message: "Invalid params".to_owned(), data }
    }

    /// The server failed, with `message` or a generic one.
    pub fn internal_error(message: Option<String>) -> (e: Self)
        ensures
            e.code == INTERNAL_ERROR,
            e.data is None,
            e.message@ == match message {
                Some(m) => m@,
                None => "Internal error"@,
            },
    {
        let message = match message {
            Some(m) => m,
            None => "Internal error".to_owned(),
        };
        JsonRpcError { code: INTERNAL_ERROR, message, data: None }
    }

    /// Document `id` does not exist.
    pub fn document_not_found(id: &str) -> (e: Self)
        ensures
            error_with(e, DOCUMENT_NOT_FOUND, "Document not found"@, seq![("document_id"@, id@)]),
    {
        JsonRpcError { code: DOCUMENT_NOT_FOUND, message: "Document not found".to_owned(), data: Some(field("document_id", id)) }
    }

    /// Field `field_name` failed validation for the reason `message`.
    pub fn validation_error(field_name: &str, message: &str) -> (e: Self)
        ensures
            error_with(e, VALIDATION_ERROR, "Validation error"@, seq![("field"@, field_name@), ("details"@, message@)]),
    {
        JsonRpcError {
            code: VALIDATION_ERROR,
            message: "Validation error".to_owned(),
            data: Some(fields2("field", field_name, "details", message)),
        }
    }
}

/// A JSON-RPC request.
#[derive(Debug, Clone)]
pub struct JsonRpcRequest {
    pub jsonrpc: String,
    pub method: String,
    pub params: Option<serde_json::Value>,
    pub id: Option<serde_json::Value>,
}

/// A JSON-RPC response: a result or an error, answering the request `id`.
#[derive(Debug, Clone)]
pub struct JsonRpcResponse {
    pub jsonrpc: String,
    pub result: Option<serde_json::Value>,
    pub error: Option<JsonRpcError>,
    pub id: Option<serde_json::Value>,
}

impl JsonRpcResponse {
    /// A successful response carrying `result`.
    pub fn success(id: Option<serde_json::Value>, result: serde_json::Value) -> (r: Self)
        ensures
            r.jsonrpc@ == "2.0"@,
            r.result == Some(result),
            r.error is None,
            r.id == id,
    {
        JsonRpcResponse { jsonrpc: "2.0".to_owned(), result: Some(result), error: None, id }
    }

    /// A response carrying `error`.
    pub fn error(id: Option<serde_json::Value>, error: JsonRpcError) -> (r: Self)
        ensures
            r.jsonrpc@ == "2.0"@,
            r.result is None,
            r.error == Some(error),
            r.id == id,
    {
        JsonRpcResponse { jsonrpc: "2.0".to_owned(), result: None, error: Some(error), id }
    }
}

/// The operations a request can call.
#[derive(Debug, Clone, Copy, PartialEq, Eq, Structural)]
pub enum RpcMethod {
    ToolsList,
    ToolsCall,
    DocumentIndex,
    DocumentGet,
    DocumentUpdate,
    DocumentDelete,
    DocumentSearch,
    CollectionList,
    HealthCheck,
    HealthReady,
    HealthLive,
    ServiceInfo,
}

/// The operation a method name calls, if any.
pub open spec fn method_for(name: Seq<char>) -> Option<RpcMethod> {
    if name == "tools/list"@ {
        Some(RpcMethod::ToolsList)
    } else if name == "tools/call"@ {
        Some(RpcMethod::ToolsCall)
    } else if name == "document.index"@ {
        Some(RpcMethod::DocumentIndex)
    } else if name == "document.get"@ {
        Some(RpcMethod::DocumentGet)
    } else if name == "document.update"@ {
        Some(RpcMethod::DocumentUpdate)
    } else if name == "document.delete"@ {
        Some(RpcMethod::DocumentDelete)
    } else if name == "document.search"@ {
        Some(RpcMethod::DocumentSearch)
    } else if name == "collection.list"@ {
        Some(RpcMethod::CollectionList)
    } else if name == "health.check"@ {
        Some(RpcMethod::HealthCheck)
    } else if name == "health.ready"@ {
        Some(RpcMethod::HealthReady)
    } else if name == "health.live"@ {
        Some(RpcMethod::HealthLive)
    } else if name == "service.info"@ {
        Some(RpcMethod::ServiceInfo)
    } else {
        None
    }
}

/// The operation a tool name calls, if any.
pub open spec fn tool_for(name: Seq<char>) -> Option<RpcMethod> {
    if name == "search_documents"@ {
        Some(RpcMethod::DocumentSearch)
    } else if name == "index_document"@ {
        Some(RpcMethod::DocumentIndex)
    } else if name == "list_collections"@ {
        Some(RpcMethod::CollectionList)
    } else if name == "get_health_status"@ {
        Some(RpcMethod::HealthCheck)
    } else {
        None
    }
}

/// The operation that serves method `method`, or the error that unknown
/// methods are answered with.
pub fn route_method(method: &str) -> (r: Result<RpcMethod, JsonRpcError>)
    ensures
        match method_for(method@) {
            Some(m) => r == Ok::<RpcMethod, JsonRpcError>(m),
            None => r matches Err(e) && error_with(e, METHOD_NOT_FOUND, "Method not found"@, seq![("method"@, method@)]),
        },
{
    if str_eq(method, "tools/list") {
        Ok(RpcMethod::ToolsList)
    } else if str_eq(method, "tools/call") {
        Ok(RpcMethod::ToolsCall)
    } else if str_eq(method, "document.index") {
        Ok(RpcMethod::DocumentIndex)
    } else if str_eq(method, "document.get") {
        Ok(RpcMethod::DocumentGet)
    } else if str_eq(method, "document.update") {
        Ok(RpcMethod::DocumentUpdate)
    } else if str_eq(method, "document.delete") {
        Ok(RpcMethod::DocumentDelete)
    } else if str_eq(method, "document.search") {
        Ok(RpcMethod::DocumentSearch)
    } else if str_eq(method, "collection.list") {
        Ok(RpcMethod::CollectionList)
    } else if str_eq(method, "health.check") {
        Ok(RpcMethod::HealthCheck)
    } else if str_eq(method, "health.ready") {
        Ok(RpcMethod::HealthReady)
    } else if str_eq(method, "health.live") {
        Ok(RpcMethod::HealthLive)
    } else if str_eq(method, "service.info") {
        Ok(RpcMethod::ServiceInfo)
    } else {
        Err(JsonRpcError::method_not_found(method))
    }
}

/// The operation a `tools/call` request runs: the one its tool name calls, or
/// an error when the name is missing or unknown.
pub fn route_tool(name: Option<&str>) -> (r: Result<RpcMethod, JsonRpcError>)
    ensures
        match name {
            None => r matches Err(e) && e.code == INVALID_PARAMS && e.message@ == "Invalid params"@ && e.data is Some
                && fields_view(e.data->0@) == seq![("details"@, "Missing 'name' parameter"@)],
            Some(n) => match tool_for(n@) {
                Some(m) => r == Ok::<RpcMethod, JsonRpcError>(m),
                None => r matches Err(e) && error_with(e, METHOD_NOT_FOUND, "Method not found"@, seq![("method"@, n@)]),
            },
        },
{
    match name {
        None => Err(JsonRpcError::invalid_params(Some("Missing 'name' parameter".to_owned()))),
        Some(n) => {
            if str_eq(n, "search_documents") {
                Ok(RpcMethod::DocumentSearch)
            } else if str_eq(n, "index_document") {
                Ok(RpcMethod::DocumentIndex)
            } else if str_eq(n, "list_collections") {
                Ok(RpcMethod::CollectionList)
            } else if str_eq(n, "get_health_status") {
                Ok(RpcMethod::HealthCheck)
            } else {
                Err(JsonRpcError::method_not_found(n))
            }
        },
    }
}

/// What a request is answered with: the operation its method calls, once
/// its version is "2.0"; otherwise the error it gets.
pub fn dispatch(request: &JsonRpcRequest) -> (r: Result<RpcMethod, JsonRpcError>)
    ensures
        request.jsonrpc@ != "2.0"@ ==> (r matches Err(e) && plain_error(e, INVALID_REQUEST, "Invalid Request"@)),
        request.jsonrpc@ == "2.0"@ ==> match method_for(request.method@) {
            Some(m) => r == Ok::<RpcMethod, JsonRpcError>(m),
            None => r matches Err(e) && error_with(e, METHOD_NOT_FOUND, "Method not found"@, seq![("method"@, request.method@)]),
        },
{
    if !str_eq(request.jsonrpc.as_str(), "2.0") {
        return Err(JsonRpcError::invalid_request());
    }
    route_method(request.method.as_str())
}

/// The answer to an empty batch: a single invalid-request error.
pub fn empty_batch_response() -> (r: Vec<JsonRpcResponse>)
    ensures
        r@.len() == 1,
        r@[0].id is None,
        r@[0].result is None,
        r@[0].error matches Some(e) && plain_error(e, INVALID_REQUEST, "Invalid Request"@),
{
    let mut r: Vec<JsonRpcResponse> = Vec::new();
    r.push(JsonRpcResponse::error(None, JsonRpcError::invalid_request()));
    r
}

/// What each element of a batch is answered with: a parse error for an
/// element that is not a request, otherwise what `dispatch` decides; an empty
/// batch is one invalid-request error.
pub fn batch_plan(items: &Vec<Option<JsonRpcRequest>>) -> (r: Vec<Result<RpcMethod, JsonRpcError>>)
    ensures
        items@.len() == 0 ==> r@.len() == 1,
        items@.len() == 0 ==> (r@[0] matches Err(e) && plain_error(e, INVALID_REQUEST, "Invalid Request"@)),
        items@.len() > 0 ==> r@.len() == items@.len(),
        items@.len() > 0 ==> forall|k: int| 0 <= k < items@.len() ==> match #[trigger] items@[k] {
            None => r@[k] matches Err(e) && plain_error(e, PARSE_ERROR, "Parse error"@),
            Some(q) => q.jsonrpc@ != "2.0"@ ==> (r@[k] matches Err(e) && plain_error(
                e,
                INVALID_REQUEST,
                "Invalid Request"@,
            )),
        },
        items@.len() > 0 ==> forall|k: int| 0 <= k < items@.len() ==> match #[trigger] items@[k] {
            Some(q) => q.jsonrpc@ == "2.0"@ ==> match method_for(q.method@) {
                Some(m) => r@[k] == Ok::<RpcMethod, JsonRpcError>(m),
                None => r@[k] matches Err(e) && error_with(
                    e,
                    METHOD_NOT_FOUND,
                    "Method not found"@,
                    seq![("method"@, q.method@)],
                ),
            },
            None => true,
        },
{
    let mut r: Vec<Result<RpcMethod, JsonRpcError>> = Vec::new();
    if items.len() == 0 {
        r.push(Err(JsonRpcError::invalid_request()));
        return r;
    }
    let mut i: usize = 0;
    while i < items.len()
        invariant
            i <= items@.len(),
            r@.len() == i,
            forall|k: int| 0 <= k < i ==> match #[trigger] items@[k] {
                None => r@[k] matches Err(e) && plain_error(e, PARSE_ERROR, "Parse error"@),
                Some(q) => q.jsonrpc@ != "2.0"@ ==> (r@[k] matches Err(e) && plain_error(
                    e,
                    INVALID_REQUEST,
                    "Invalid Request"@,
                )),
            },
            forall|k: int| 0 <= k < i ==> match #[trigger] items@[k] {
                Some(q) => q.jsonrpc@ == "2.0"@ ==> match method_for(q.method@) {
                    Some(m) => r@[k] == Ok::<RpcMethod, JsonRpcError>(m),
                    None => r@[k] matches Err(e) && error_with(
                        e,
                        METHOD_NOT_FOUND,
                        "Method not found"@,
                        seq![("method"@, q.method@)],
                    ),
                },
                None => true,
            },
        decreases items.len() - i,
    {
        let answer = match &items[i] {
            None => Err(JsonRpcError::parse_error()),
            Some(q) => dispatch(q),
        };
        r.push(answer);
        i = i + 1;
    }
    r
}

/// The errors of the core services.
#[derive(Debug, Clone)]
pub enum ZeroLatencyError {
    Validation { field: String, message: String },
    NotFound { resource: String },
    Configuration { message: String },
    Internal { message: String },
    Database { message: String },
    Network { message: String },
    Serialization { message: String },
    ExternalService { service: String, message: String },
    PermissionDenied { operation: String },
}

/// The JSON-RPC error a core error is reported as.
pub open spec fn rpc_error_for(err: ZeroLatencyError, e: JsonRpcError) -> bool {
    match err {
        ZeroLatencyError::Validation { field, message } => error_with(
            e,
            VALIDATION_ERROR,
            "Validation error"@,
            seq![("field"@, field@), ("details"@, message@)],
        ),
        ZeroLatencyError::NotFound { resource } => if seq_contains(resource@, "document"@) {
            error_with(e, DOCUMENT_NOT_FOUND, "Document not found"@, seq![("document_id"@, resource@)])
        } else {
            plain_error(e, INTERNAL_ERROR, "Resource not found: "@ + resource@)
        },
        ZeroLatencyError::Configuration { message } => plain_error(e, INTERNAL_ERROR, message@),
        ZeroLatencyError::Internal { message } => plain_error(e, INTERNAL_ERROR, message@),
        ZeroLatencyError::Database { message } => plain_error(e, INTERNAL_ERROR, message@),
        ZeroLatencyError::Network { message } => plain_error(e, INTERNAL_ERROR, message@),
        ZeroLatencyError::Serialization { message } => plain_error(e, INTERNAL_ERROR, message@),
        ZeroLatencyError::ExternalService { service, message } => error_with(
            e,
            INTERNAL_ERROR,
            "External service error: "@ + service@,
            seq![("service"@, service@), ("details"@, message@)],
        ),
        ZeroLatencyError::PermissionDenied { operation } => plain_error(e, INTERNAL_ERROR, "Permission denied: "@ + operation@),
    }
}

/// The JSON-RPC error for a core error.
pub fn rpc_error_from(err: ZeroLatencyError) -> (e: JsonRpcError)
    ensures
        rpc_error_for(err, e),
{
    match err {
        ZeroLatencyError::Validation { field, message } => JsonRpcError::validation_error(field.as_str(), message.as_str()),
        ZeroLatencyError::NotFound { resource } => {
            if str_contains(resource.as_str(), "document") {
                JsonRpcError::document_not_found(resource.as_str())
            } else {
                let mut m = "Resource not found: ".to_owned();
                push_str(&mut m, resource.as_str());
                JsonRpcError { code: INTERNAL_ERROR, message: m, data: None }
            }
        },
        ZeroLatencyError::Configuration { message } => JsonRpcError::internal_error(Some(message)),
        ZeroLatencyError::Internal { message } => JsonRpcError::internal_error(Some(message)),
        ZeroLatencyError::Database { message } => JsonRpcError::internal_error(Some(message)),
        ZeroLatencyError::Network { message } => JsonRpcError::internal_error(Some(message)),
        ZeroLatencyError::Serialization { message } => JsonRpcError::internal_error(Some(message)),
        ZeroLatencyError::ExternalService { service, message } => {
            let mut m = "External service error: ".to_owned();
            push_str(&mut m, service.as_str());
            JsonRpcError {
                code: INTERNAL_ERROR,
                message: m,
                data: Some(fields2("service", service.as_str(), "details", message.as_str())),
            }
        },
        ZeroLatencyError::PermissionDenied { operation } => {
            let mut m = "Permission denied: ".to_owned();
            push_str(&mut m, operation.as_str());
            JsonRpcError { code: INTERNAL_ERROR, message: m, data: None }
        },
    }
}

} // verus!
