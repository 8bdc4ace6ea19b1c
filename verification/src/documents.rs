//! Checks and defaults applied to documents handed in over JSON-RPC.

use vstd::prelude::*;
use crate::jsonrpc::{error_with, JsonRpcError, VALIDATION_ERROR};
use crate::jsonrpc_types::{IndexDocumentParams, IndexDocumentResult, UpdateDocumentParams};

verus! {

/// A hexadecimal digit, in either case.
pub open spec fn hex_digit(c: char) -> bool {
    ('0' <= c && c <= '9') || ('a' <= c && c <= 'f') || ('A' <= c && c <= 'F')
}

/// 32 hexadecimal digits.
pub open spec fn simple_uuid(s: Seq<char>) -> bool {
    s.len() == 32 && forall|i: int| 0 <= i < 32 ==> hex_digit(#[trigger] s[i])
}

/// 32 hexadecimal digits in groups of 8, 4, 4, 4 and 12, joined by hyphens.
pub open spec fn hyphenated_uuid(s: Seq<char>) -> bool {
    &&& s.len() == 36
    &&& forall|i: int|
        0 <= i < 36 ==> if i == 8 || i == 13 || i == 18 || i == 23 {
            #[trigger] s[i] == '-'
        } else {
            hex_digit(s[i])
        }
}

/// `urn:uuid:`, letters in either case.
pub open spec fn urn_prefix(s: Seq<char>) -> bool {
    &&& s.len() == 9
    &&& (s[0] == 'u' || s[0] == 'U') && (s[1] == 'r' || s[1] == 'R') && (s[2] == 'n' || s[2] == 'N')
    &&& s[3] == ':'
    &&& (s[4] == 'u' || s[4] == 'U') && (s[5] == 'u' || s[5] == 'U') && (s[6] == 'i' || s[6] == 'I')
    &&& (s[7] == 'd' || s[7] == 'D')
    &&& s[8] == ':'
}

/// The texts `uuid::Uuid::parse_str` accepts: a simple or hyphenated UUID,
/// a hyphenated one in braces, or one after a `urn:uuid:` prefix.
pub open spec fn uuid_text(s: Seq<char>) -> bool {
    ||| simple_uuid(s)
    ||| hyphenated_uuid(s)
    ||| (s.len() == 38 && s[0] == '{' && s[37] == '}' && hyphenated_uuid(s.subrange(1, 37)))
    ||| (s.len() == 45 && urn_prefix(s.take(9)) && hyphenated_uuid(s.skip(9)))
}

/// `uuid::Uuid::parse_str(text).is_ok()`: the crate's parser (uuid 1.29,
/// `parser::try_parse`) accepts 32 bytes of hexadecimal digits, 36 bytes
/// hyphenated, 38 bytes hyphenated in braces, or 45 bytes with a
/// case-insensitive `urn:uuid:` prefix, checking every byte; as every
/// accepted byte is ASCII, that is the grammar `uuid_text` over characters.
#[verifier::external_body]
fn uuid_parses(text: &str) -> (r: bool)
    ensures
        r == uuid_text(text@),
{
    uuid::Uuid::parse_str(text).is_ok()
}

/// The verdict on a document id given whether it parses as a UUID.
pub fn document_id_verdict(parses: bool) -> (r: Result<(), JsonRpcError>)
    ensures
        parses ==> r is Ok,
        !parses ==> (r matches Err(e) && error_with(
            e,
            VALIDATION_ERROR,
            "Validation error"@,
            seq![("field"@, "id"@), ("details"@, "Invalid UUID format"@)],
        )),
{
    if parses {
        Ok(())
    } else {
        Err(JsonRpcError::validation_error("id", "Invalid UUID format"))
    }
}

/// A document id must be a UUID.
pub fn check_document_id(id: &str) -> (r: Result<(), JsonRpcError>)
    ensures
        uuid_text(id@) ==> r is Ok,
        !uuid_text(id@) ==> (r matches Err(e) && error_with(
            e,
            VALIDATION_ERROR,
            "Validation error"@,
            seq![("field"@, "id"@), ("details"@, "Invalid UUID format"@)],
        )),
{
    document_id_verdict(uuid_parses(id))
}

/// The fields of a document to store: its title ("Untitled" when unset),
/// content ("" when unset) and path ("/tmp/unknown" when unset).
pub fn document_fields(title: Option<String>, content: Option<String>, path: Option<String>) -> (r: (
    String,
    String,
    String,
))
    ensures
        r.0@ == match title {
            Some(t) => t@,
            None => "Untitled"@,
        },
        r.1@ == match content {
            Some(c) => c@,
            None => Seq::<char>::empty(),
        },
        r.2@ == match path {
            Some(p) => p@,
            None => "/tmp/unknown"@,
        },
{
    (
        match title {
            Some(t) => t,
            None => "Untitled".to_owned(),
        },
        match content {
            Some(c) => c,
            None => String::new(),
        },
        match path {
            Some(p) => p,
            None => "/tmp/unknown".to_owned(),
        },
    )
}

/// The fields of a document to index from `params`, once its id is checked.
pub fn index_document_fields(params: IndexDocumentParams) -> (r: Result<(String, String, String, String), JsonRpcError>)
    ensures
        !uuid_text(params.id@) ==> r is Err,
        uuid_text(params.id@) ==> (r matches Ok(f) && f.0@ == params.id@ && f.1@ == match params.title {
            Some(t) => t@,
            None => "Untitled"@,
        } && f.2@ == params.content@ && f.3@ == match params.path {
            Some(p) => p@,
            None => "/tmp/unknown"@,
        }),
{
    check_document_id(params.id.as_str())?;
    let (title, content, path) = document_fields(params.title, Some(params.content), params.path);
    Ok((params.id, title, content, path))
}

/// The fields of a document to update from `params`, once its id is checked.
pub fn update_document_fields(params: UpdateDocumentParams) -> (r: Result<(String, String, String, String), JsonRpcError>)
    ensures
        !uuid_text(params.id@) ==> r is Err,
        uuid_text(params.id@) ==> (r matches Ok(f) && f.0@ == params.id@ && f.1@ == match params.title {
            Some(t) => t@,
            None => "Untitled"@,
        } && f.2@ == match params.content {
            Some(c) => c@,
            None => Seq::<char>::empty(),
        } && f.3@ == match params.path {
            Some(p) => p@,
            None => "/tmp/unknown"@,
        }),
{
    check_document_id(params.id.as_str())?;
    let (title, content, path) = document_fields(params.title, params.content, params.path);
    Ok((params.id, title, content, path))
}

/// The answer to a successful indexing of document `id`.
pub fn indexed_result(id: String) -> (r: IndexDocumentResult)
    ensures
        r.success,
        r.message@ == "Document indexed successfully"@,
        r.document_id == id,
{
    IndexDocumentResult { success: true, message: "Document indexed successfully".to_owned(), document_id: id }
}

} // verus!
