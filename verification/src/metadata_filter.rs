//! Metadata filters over text values: which documents a filter keeps.

use vstd::prelude::*;
use crate::text::{seq_contains, str_contains, str_eq, string_views};

verus! {

/// A filter on a text metadata value, or on a date range (not applied yet).
#[derive(Debug, Clone)]
pub enum TextFilter {
    Equals(String),
    Contains(String),
    In(Vec<String>),
    DateRange { start: Option<String>, end: Option<String> },
}

/// Whether a metadata field keeps a document: `value` is the field's text,
/// `None` when the document lacks the field or it is not text. A date range
/// keeps any document that has the field.
pub open spec fn keeps(present: bool, value: Option<Seq<char>>, filter: TextFilter) -> bool {
    present && match filter {
        TextFilter::Equals(expected) => value == Some(expected@),
        TextFilter::Contains(part) => value matches Some(v) && seq_contains(v, part@),
        TextFilter::In(options) => value matches Some(v) && string_views(options@).contains(v),
        TextFilter::DateRange { .. } => true,
    }
}

/// Whether the filter keeps a document whose field is present (`present`)
/// with text `value` (`None` when not text).
pub fn text_filter_keeps(present: bool, value: Option<&str>, filter: &TextFilter) -> (r: bool)
    ensures
        r == keeps(
            present,
            match value {
                Some(v) => Some(v@),
                None => None,
            },
            *filter,
        ),
{
    if !present {
        return false;
    }
    match filter {
        TextFilter::Equals(expected) => match value {
            Some(v) => str_eq(v, expected.as_str()),
            None => false,
        },
        TextFilter::Contains(part) => match value {
            Some(v) => str_contains(v, part.as_str()),
            None => false,
        },
        TextFilter::In(options) => match value {
            Some(v) => {
                let mut i: usize = 0;
                while i < options.len()
                    invariant
                        i <= options.len(),
                        present,
                        value == Some(v),
                        *filter == TextFilter::In(*options),
                        forall|k: int| 0 <= k < i ==> options@[k]@ != v@,
                    decreases options.len() - i,
                {
                    if str_eq(options[i].as_str(), v) {
                        assert(string_views(options@)[i as int] == v@);
                        assert(string_views(options@).contains(v@));
                        return true;
                    }
                    i = i + 1;
                }
                assert(!string_views(options@).contains(v@)) by {
                    if string_views(options@).contains(v@) {
                        let k = choose|k: int| 0 <= k < options@.len() && string_views(options@)[k] == v@;
                        assert(options@[k]@ == v@);
                    }
                }
                false
            },
            None => false,
        },
        TextFilter::DateRange { .. } => true,
    }
}


/// A `Contains` filter on a present text value keeps the document exactly
/// when the part occurs somewhere in the value, at any position.
pub proof fn law_contains_is_substring(value: Seq<char>, part: String)
    ensures
        keeps(true, Some(value), TextFilter::Contains(part)) <==> exists|i: int|
            0 <= i && i + part@.len() <= value.len() && #[trigger] value.subrange(i, i + part@.len()) == part@,
{
    if keeps(true, Some(value), TextFilter::Contains(part)) {
        let i = choose|i: int| crate::text::occurs_at(value, part@, i);
        assert(value.subrange(i, i + part@.len()) == part@);
    }
    if exists|i: int| 0 <= i && i + part@.len() <= value.len() && #[trigger] value.subrange(i, i + part@.len()) == part@ {
        let i = choose|i: int| 0 <= i && i + part@.len() <= value.len() && #[trigger] value.subrange(i, i + part@.len()) == part@;
        assert(crate::text::occurs_at(value, part@, i));
    }
}

/// For instance, a value that holds the part in its middle, neither at its
/// start nor at its end, is kept.
pub proof fn law_contains_inner_part(before: Seq<char>, part: String, after: Seq<char>)
    ensures
        keeps(true, Some(before + part@ + after), TextFilter::Contains(part)),
{
    let v = before + part@ + after;
    assert(v.subrange(before.len() as int, (before.len() + part@.len()) as int) =~= part@);
    assert(crate::text::occurs_at(v, part@, before.len() as int));
}


/// A filter keeps nothing whose field is absent; on a present field, an
/// `Equals` filter keeps exactly the value equal to its text, an `In` filter
/// exactly a value equal to one of its options, and a date range keeps
/// everything.
pub proof fn law_filters_on_present_values(value: Option<Seq<char>>, filter: TextFilter)
    ensures
        !keeps(false, value, filter),
        filter matches TextFilter::Equals(x) ==> (keeps(true, value, filter) <==> value == Some(x@)),
        filter matches TextFilter::In(options) ==> (keeps(true, value, filter) <==> (value matches Some(v) && exists|k: int|
            0 <= k < options@.len() && #[trigger] options@[k]@ == v)),
        filter matches TextFilter::DateRange { .. } ==> keeps(true, value, filter),
{
    if let TextFilter::In(options) = filter {
        if let Some(v) = value {
            if string_views(options@).contains(v) {
                let k = choose|k: int| 0 <= k < string_views(options@).len() && string_views(options@)[k] == v;
                assert(options@[k]@ == v);
            }
            if exists|k: int| 0 <= k < options@.len() && #[trigger] options@[k]@ == v {
                let k = choose|k: int| 0 <= k < options@.len() && #[trigger] options@[k]@ == v;
                assert(string_views(options@)[k] == v);
            }
        }
    }
}

} // verus!
