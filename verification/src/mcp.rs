//! The agent-tool interface: how a search tool call reads its arguments and
//! how its results are written out as text.

use vstd::prelude::*;
use vstd::string::StringSliceAdditionalSpecFns;
use vstd::utf8::{decode_utf8, encode_utf8, is_char_boundary};
use crate::jsonrpc::{error_with, field, JsonRpcError, METHOD_NOT_FOUND};
use crate::text::{decimal, push_decimal, push_text, string_from_chars};

verus! {

broadcast use vstd::utf8::encode_utf8_decode_utf8;

/// How long a shown excerpt of a document may be, in bytes.
pub const PREVIEW_BYTES: usize = 200;

/// The excerpt shown of a document's text: all of it when it fits in
/// `PREVIEW_BYTES` bytes, else its first `PREVIEW_BYTES` bytes and `...`.
pub open spec fn preview(text: Seq<char>) -> Seq<char> {
    if encode_utf8(text).len() <= 200 {
        text
    } else {
        decode_utf8(encode_utf8(text).subrange(0, 200)) + "..."@
    }
}

/// The text may be cut after `PREVIEW_BYTES` bytes without splitting a character.
pub open spec fn previewable(text: Seq<char>) -> bool {
    encode_utf8(text).len() <= usize::MAX && (encode_utf8(text).len() > 200 ==> is_char_boundary(
        encode_utf8(text),
        200,
    ))
}

/// The excerpt shown of `text`.
pub fn content_preview(text: &str) -> (r: String)
    requires
        previewable(text@),
    ensures
        r@ == preview(text@),
{
    if text.len() > PREVIEW_BYTES {
        let (head, _rest) = text.split_at(PREVIEW_BYTES);
        let mut v: Vec<char> = Vec::new();
        push_text(&mut v, head);
        push_text(&mut v, "...");
        assert(encode_utf8(head@) == encode_utf8(text@).subrange(0, 200));
        string_from_chars(&v)
    } else {
        text.to_owned()
    }
}

/// One search result as the tool reports it; the score comes already written
/// out (to three decimals).
#[derive(Debug, Clone)]
pub struct SearchHit {
    pub document_id: String,
    pub score_text: String,
    pub content: String,
}

/// The report of the hit numbered `n`.
pub open spec fn hit_text(n: nat, h: SearchHit) -> Seq<char> {
    decimal(n) + ". Document ID: "@ + h.document_id@ + "\n   Score: "@ + h.score_text@ + "\n   Content: "@
        + preview(h.content@) + "\n\n"@
}

/// The reports of `hits`, numbered from one.
pub open spec fn hits_text(hits: Seq<SearchHit>) -> Seq<char>
    decreases hits.len(),
{
    if hits.len() == 0 {
        Seq::empty()
    } else {
        hits_text(hits.drop_last()) + hit_text(hits.len(), hits.last())
    }
}

/// The tool's answer to a search for `query` that found `hits`.
pub open spec fn results_text(query: Seq<char>, hits: Seq<SearchHit>) -> Seq<char> {
    if hits.len() == 0 {
        "No documents found for query: '"@ + query + "'"@
    } else {
        "Found "@ + decimal(hits.len()) + " documents for query '"@ + query + "':\n\n"@ + hits_text(hits)
    }
}

/// The tool's answer to a search for `query` that found `hits`.
pub fn search_results_text(query: &str, hits: &Vec<SearchHit>) -> (r: String)
    requires
        hits@.len() < u64::MAX,
        forall|k: int| 0 <= k < hits@.len() ==> previewable((#[trigger] hits@[k]).content@),
    ensures
        r@ == results_text(query@, hits@),
{
    let mut v: Vec<char> = Vec::new();
    if hits.len() == 0 {
        push_text(&mut v, "No documents found for query: '");
        push_text(&mut v, query);
        push_text(&mut v, "'");
        return string_from_chars(&v);
    }
    push_text(&mut v, "Found ");
    push_decimal(&mut v, hits.len() as u64);
    push_text(&mut v, " documents for query '");
    push_text(&mut v, query);
    push_text(&mut v, "':\n\n");
    let ghost head = v@;
    let mut i: usize = 0;
    while i < hits.len()
        invariant
            i <= hits@.len(),
            hits@.len() < u64::MAX,
            forall|k: int| 0 <= k < hits@.len() ==> previewable((#[trigger] hits@[k]).content@),
            v@ == head + hits_text(hits@.take(i as int)),
        decreases hits.len() - i,
    {
        let h = &hits[i];
        push_decimal(&mut v, (i + 1) as u64);
        push_text(&mut v, ". Document ID: ");
        push_text(&mut v, h.document_id.as_str());
        push_text(&mut v, "\n   Score: ");
        push_text(&mut v, h.score_text.as_str());
        push_text(&mut v, "\n   Content: ");
        assert(previewable(hits@[i as int].content@));
        let shown = content_preview(h.content.as_str());
        push_text(&mut v, shown.as_str());
        push_text(&mut v, "\n\n");
        assert(hits@.take(i + 1).drop_last() =~= hits@.take(i as int));
        assert(hits@.take(i + 1).last() == hits@[i as int]);
        assert(v@ =~= head + hits_text(hits@.take(i + 1)));
        i = i + 1;
    }
    assert(hits@.take(hits.len() as int) =~= hits@);
    string_from_chars(&v)
}

/// The error for a tool the interface does not offer.
pub fn tool_not_found(name: &str) -> (e: JsonRpcError)
    ensures
        error_with(e, METHOD_NOT_FOUND, "Tool not found"@, seq![("tool_name"@, name@)]),
{
    JsonRpcError { code: METHOD_NOT_FOUND, message: "Tool not found".to_owned(), data: Some(field("tool_name", name)) }
}

/// How many results a search tool call asks for: its `limit` argument when it
/// is a whole number, else ten.
pub fn tool_search_limit(limit: Option<u64>) -> (r: u64)
    ensures
        r == match limit {
            Some(l) => l,
            None => 10,
        },
{
    match limit {
        Some(l) => l,
        None => 10,
    }
}

} // verus!
