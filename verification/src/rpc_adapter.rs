//! The JSON-RPC protocol adapter's decisions: which operation a request
//! calls, how its parameters are checked, and the errors it answers with.

use vstd::prelude::*;
use crate::jsonrpc::{
    error_with, field, fields2, fields_view, plain_error, JsonRpcError, INVALID_PARAMS, INVALID_REQUEST,
    METHOD_NOT_FOUND,
};
use crate::text::{push_text, str_eq, string_from_chars};

verus! {

/// The code of errors raised by the services behind the adapter.
pub const SERVER_ERROR: i32 = -32000;

/// The operations the adapter serves.
#[derive(Debug, Clone, Copy, PartialEq, Eq, Structural)]
pub enum AdapterMethod {
    HealthCheck,
    HealthReady,
    HealthLive,
    ServiceInfo,
    DocumentSearch,
    DocumentIndex,
    DocumentGet,
    CollectionList,
    CollectionCreate,
    CollectionGet,
    CollectionDelete,
    CollectionStats,
    ToolsList,
    ToolsCall,
}

/// The operation a method name calls, if any.
pub open spec fn adapter_method_for(name: Seq<char>) -> Option<AdapterMethod> {
    if name == "health.check"@ {
        Some(AdapterMethod::HealthCheck)
    } else if name == "health.ready"@ {
        Some(AdapterMethod::HealthReady)
    } else if name == "health.live"@ {
        Some(AdapterMethod::HealthLive)
    } else if name == "service.info"@ {
        Some(AdapterMethod::ServiceInfo)
    } else if name == "document.search"@ {
        Some(AdapterMethod::DocumentSearch)
    } else if name == "document.index"@ {
        Some(AdapterMethod::DocumentIndex)
    } else if name == "document.get"@ {
        Some(AdapterMethod::DocumentGet)
    } else if name == "collection.list"@ {
        Some(AdapterMethod::CollectionList)
    } else if name == "collection.create"@ {
        Some(AdapterMethod::CollectionCreate)
    } else if name == "collection.get"@ {
        Some(AdapterMethod::CollectionGet)
    } else if name == "collection.delete"@ {
        Some(AdapterMethod::CollectionDelete)
    } else if name == "collection.stats"@ {
        Some(AdapterMethod::CollectionStats)
    } else if name == "tools/list"@ {
        Some(AdapterMethod::ToolsList)
    } else if name == "tools/call"@ {
        Some(AdapterMethod::ToolsCall)
    } else {
        None
    }
}

/// `text` with `name` in quotes after it and `suffix` after that.
fn quoted(text: &str, name: &str, suffix: &str) -> (r: String)
    ensures
        r@ == text@ + name@ + suffix@,
{
    let mut v: Vec<char> = Vec::new();
    push_text(&mut v, text);
    push_text(&mut v, name);
    push_text(&mut v, suffix);
    string_from_chars(&v)
}

/// `text` followed by `name`.
fn joined_text(text: &str, name: &str) -> (r: String)
    ensures
        r@ == text@ + name@,
{
    let mut v: Vec<char> = Vec::new();
    push_text(&mut v, text);
    push_text(&mut v, name);
    string_from_chars(&v)
}

/// The operation a request of version `jsonrpc` calling `method` runs: only
/// version "2.0" is served, and unknown methods are refused by name.
pub fn route_adapter_request(jsonrpc: &str, method: &str) -> (r: Result<AdapterMethod, JsonRpcError>)
    ensures
        jsonrpc@ != "2.0"@ ==> (r matches Err(e) && error_with(
            e,
            INVALID_REQUEST,
            "Invalid JSON-RPC version"@,
            seq![("required"@, "2.0"@), ("received"@, jsonrpc@)],
        )),
        jsonrpc@ == "2.0"@ ==> match adapter_method_for(method@) {
            Some(m) => r == Ok::<AdapterMethod, JsonRpcError>(m),
            None => r matches Err(e) && plain_error(e, METHOD_NOT_FOUND, "Method '"@ + method@ + "' not found"@),
        },
{
    if !str_eq(jsonrpc, "2.0") {
        return Err(JsonRpcError {
            code: INVALID_REQUEST,
            message: "Invalid JSON-RPC version".to_owned(),
            data: Some(fields2("required", "2.0", "received", jsonrpc)),
        });
    }
    if str_eq(method, "health.check") {
        Ok(AdapterMethod::HealthCheck)
    } else if str_eq(method, "health.ready") {
        Ok(AdapterMethod::HealthReady)
    } else if str_eq(method, "health.live") {
        Ok(AdapterMethod::HealthLive)
    } else if str_eq(method, "service.info") {
        Ok(AdapterMethod::ServiceInfo)
    } else if str_eq(method, "document.search") {
        Ok(AdapterMethod::DocumentSearch)
    } else if str_eq(method, "document.index") {
        Ok(AdapterMethod::DocumentIndex)
    } else if str_eq(method, "document.get") {
        Ok(AdapterMethod::DocumentGet)
    } else if str_eq(method, "collection.list") {
        Ok(AdapterMethod::CollectionList)
    } else if str_eq(method, "collection.create") {
        Ok(AdapterMethod::CollectionCreate)
    } else if str_eq(method, "collection.get") {
        Ok(AdapterMethod::CollectionGet)
    } else if str_eq(method, "collection.delete") {
        Ok(AdapterMethod::CollectionDelete)
    } else if str_eq(method, "collection.stats") {
        Ok(AdapterMethod::CollectionStats)
    } else if str_eq(method, "tools/list") {
        Ok(AdapterMethod::ToolsList)
    } else if str_eq(method, "tools/call") {
        Ok(AdapterMethod::ToolsCall)
    } else {
        Err(JsonRpcError { code: METHOD_NOT_FOUND, message: quoted("Method '", method, "' not found"), data: None })
    }
}

/// What a request's parameters turned out to be, for an operation that
/// reads them whole.
#[derive(Debug, Clone)]
pub enum ParamsOutcome<T> {
    /// The request has no parameters.
    Absent,
    /// The parameters do not have the expected shape; the text says why.
    Invalid(String),
    /// The parameters, read.
    Parsed(T),
}

/// Which operation's parameters are read.
#[derive(Debug, Clone, Copy, PartialEq, Eq, Structural)]
pub enum ParamsKind {
    Search,
    Index,
    Collection,
}

/// The word naming a kind of parameters, capitalized or not.
pub open spec fn kind_word(kind: ParamsKind, capital: bool) -> Seq<char> {
    match kind {
        ParamsKind::Search => if capital { "Search"@ } else { "search"@ },
        ParamsKind::Index => if capital { "Index"@ } else { "index"@ },
        ParamsKind::Collection => if capital { "Collection"@ } else { "collection"@ },
    }
}

fn kind_text(kind: ParamsKind, capital: bool) -> (r: &'static str)
    ensures
        r@ == kind_word(kind, capital),
{
    match kind {
        ParamsKind::Search => if capital { "Search" } else { "search" },
        ParamsKind::Index => if capital { "Index" } else { "index" },
        ParamsKind::Collection => if capital { "Collection" } else { "collection" },
    }
}

/// The parameters of an operation of `kind`, or the error for missing or
/// malformed ones.
pub fn require_params<T>(outcome: ParamsOutcome<T>, kind: ParamsKind) -> (r: Result<T, JsonRpcError>)
    ensures
        match outcome {
            ParamsOutcome::Absent => r matches Err(e) && plain_error(
                e,
                INVALID_PARAMS,
                kind_word(kind, true) + " parameters required"@,
            ),
            ParamsOutcome::Invalid(why) => r matches Err(e) && error_with(
                e,
                INVALID_PARAMS,
                "Invalid "@ + kind_word(kind, false) + " parameters"@,
                seq![("error"@, why@)],
            ),
            ParamsOutcome::Parsed(p) => r == Ok::<T, JsonRpcError>(p),
        },
{
    match outcome {
        ParamsOutcome::Absent => {
            let mut v: Vec<char> = Vec::new();
            push_text(&mut v, kind_text(kind, true));
            push_text(&mut v, " parameters required");
            Err(JsonRpcError { code: INVALID_PARAMS, message: string_from_chars(&v), data: None })
        },
        ParamsOutcome::Invalid(why) => {
            let mut v: Vec<char> = Vec::new();
            push_text(&mut v, "Invalid ");
            push_text(&mut v, kind_text(kind, false));
            push_text(&mut v, " parameters");
            Err(JsonRpcError {
                code: INVALID_PARAMS,
                message: string_from_chars(&v),
                data: Some(field("error", why.as_str())),
            })
        },
        ParamsOutcome::Parsed(p) => Ok(p),
    }
}

/// What looking up a named string field of the parameters gave.
#[derive(Debug, Clone)]
pub enum FieldLookup {
    /// The request has no parameters.
    NoParams,
    /// The parameters have no such field.
    Missing,
    /// The field is not a string.
    NotString,
    /// The field's text.
    Found(String),
}

/// The collection name a request names, or the error for a missing one.
pub fn collection_name_param(lookup: FieldLookup) -> (r: Result<String, JsonRpcError>)
    ensures
        match lookup {
            FieldLookup::NoParams => r matches Err(e) && plain_error(e, INVALID_PARAMS, "Parameters required"@),
            FieldLookup::Missing => r matches Err(e) && plain_error(e, INVALID_PARAMS, "Collection name required"@),
            FieldLookup::NotString => r matches Err(e) && plain_error(
                e,
                INVALID_PARAMS,
                "Collection name must be a string"@,
            ),
            FieldLookup::Found(n) => r == Ok::<String, JsonRpcError>(n),
        },
{
    match lookup {
        FieldLookup::NoParams => Err(
            JsonRpcError { code: INVALID_PARAMS, message: "Parameters required".to_owned(), data: None },
        ),
        FieldLookup::Missing => Err(
            JsonRpcError { code: INVALID_PARAMS, message: "Collection name required".to_owned(), data: None },
        ),
        FieldLookup::NotString => Err(
            JsonRpcError { code: INVALID_PARAMS, message: "Collection name must be a string".to_owned(), data: None },
        ),
        FieldLookup::Found(n) => Ok(n),
    }
}

/// The method a tool call runs: the one its tool name stands for, or the
/// error for a missing, malformed or unknown name.
pub fn tool_call_method(lookup: FieldLookup) -> (r: Result<&'static str, JsonRpcError>)
    ensures
        match lookup {
            FieldLookup::NoParams => r matches Err(e) && plain_error(
                e,
                INVALID_PARAMS,
                "Tool call parameters required"@,
            ),
            FieldLookup::Missing => r matches Err(e) && plain_error(e, INVALID_PARAMS, "Tool name required"@),
            FieldLookup::NotString => r matches Err(e) && plain_error(e, INVALID_PARAMS, "Tool name must be a string"@),
            FieldLookup::Found(n) => if n@ == "search_documents"@ {
                r matches Ok(m) && m@ == "document.search"@
            } else if n@ == "index_document"@ {
                r matches Ok(m) && m@ == "document.index"@
            } else if n@ == "list_collections"@ {
                r matches Ok(m) && m@ == "collection.list"@
            } else {
                r matches Err(e) && plain_error(e, METHOD_NOT_FOUND, "Unknown tool: "@ + n@)
            },
        },
{
    match lookup {
        FieldLookup::NoParams => Err(
            JsonRpcError { code: INVALID_PARAMS, message: "Tool call parameters required".to_owned(), data: None },
        ),
        FieldLookup::Missing => Err(
            JsonRpcError { code: INVALID_PARAMS, message: "Tool name required".to_owned(), data: None },
        ),
        FieldLookup::NotString => Err(
            JsonRpcError { code: INVALID_PARAMS, message: "Tool name must be a string".to_owned(), data: None },
        ),
        FieldLookup::Found(n) => {
            if str_eq(n.as_str(), "search_documents") {
                Ok("document.search")
            } else if str_eq(n.as_str(), "index_document") {
                Ok("document.index")
            } else if str_eq(n.as_str(), "list_collections") {
                Ok("collection.list")
            } else {
                Err(JsonRpcError { code: METHOD_NOT_FOUND, message: joined_text("Unknown tool: ", n.as_str()), data: None })
            }
        },
    }
}

/// The error a failed service call is answered with: a generic server error
/// carrying the failure's text.
pub fn service_error(message: &str) -> (e: JsonRpcError)
    ensures
        error_with(e, SERVER_ERROR, "Internal server error"@, seq![("error"@, message@), ("type"@, "ZeroLatencyError"@)]),
{
    JsonRpcError {
        code: SERVER_ERROR,
        message: "Internal server error".to_owned(),
        data: Some(fields2("error", message, "type", "ZeroLatencyError")),
    }
}

/// The error for a collection that does not exist.
pub fn collection_not_found(name: &str) -> (e: JsonRpcError)
    ensures
        error_with(e, SERVER_ERROR, "Collection not found"@, seq![("collection"@, name@)]),
{
    JsonRpcError { code: SERVER_ERROR, message: "Collection not found".to_owned(), data: Some(field("collection", name)) }
}

/// The error of operations the adapter does not offer yet: document lookup
/// and collection statistics.
pub fn not_implemented(method: AdapterMethod) -> (r: Option<JsonRpcError>)
    ensures
        method == AdapterMethod::DocumentGet ==> (r matches Some(e) && plain_error(
            e,
            METHOD_NOT_FOUND,
            "Document retrieval not yet implemented"@,
        )),
        method == AdapterMethod::CollectionStats ==> (r matches Some(e) && plain_error(
            e,
            METHOD_NOT_FOUND,
            "Collection stats not yet implemented"@,
        )),
        method != AdapterMethod::DocumentGet && method != AdapterMethod::CollectionStats ==> r is None,
{
    match method {
        AdapterMethod::DocumentGet => Some(
            JsonRpcError {
                code: METHOD_NOT_FOUND,
                message: "Document retrieval not yet implemented".to_owned(),
                data: None,
            },
        ),
        AdapterMethod::CollectionStats => Some(
            JsonRpcError {
                code: METHOD_NOT_FOUND,
                message: "Collection stats not yet implemented".to_owned(),
                data: None,
            },
        ),
        _ => None,
    }
}

/// The window of a search: the given limit (ten when unset) and offset
/// (none when unset).
pub fn search_window(limit: Option<u64>, offset: Option<u64>) -> (r: (u64, u64))
    ensures
        r.0 == match limit {
            Some(l) => l,
            None => 10,
        },
        r.1 == match offset {
            Some(o) => o,
            None => 0,
        },
{
    (
        match limit {
            Some(l) => l,
            None => 10,
        },
        match offset {
            Some(o) => o,
            None => 0,
        },
    )
}

} // verus!
