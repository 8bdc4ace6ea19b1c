//! Query enhancement: a query is analysed for its intent and expanded with
//! related technical terms, synonyms and phrases from fixed tables, keeping
//! at most eight distinct additions, the first in lexicographic order.

use vstd::prelude::*;
use crate::text::{
    chars_of, is_whitespace, join_spaced, join_with_spaces, lowercase_of, push_str, seq_contains,
    seq_lt, seq_starts_with, split_whitespace, str_contains, str_lt, string_from_chars,
    string_views, to_lowercase, u64_to_string, views_of, words, words_of, decimal,
    lemma_seq_lt_irreflexive, lemma_seq_lt_total, lemma_seq_lt_transitive,
};

verus! {

/// The most terms a query is expanded with.
pub const MAX_EXPANSIONS: usize = 8;

/// `r` holds the `k` smallest distinct texts of `all`, in increasing order
/// (all of them when there are fewer): what sorting, removing duplicates and
/// keeping the first `k` gives.
pub open spec fn smallest_distinct(all: Seq<Seq<char>>, r: Seq<Seq<char>>, k: nat) -> bool {
    &&& forall|i: int, j: int| 0 <= i < j < r.len() ==> seq_lt(#[trigger] r[i], #[trigger] r[j])
    &&& forall|i: int| 0 <= i < r.len() ==> all.contains(#[trigger] r[i])
    &&& r.len() <= k
    &&& r.len() < k ==> forall|x: Seq<char>| #[trigger] all.contains(x) ==> r.contains(x)
    &&& (r.len() == k && k > 0) ==> forall|x: Seq<char>|
        #[trigger] all.contains(x) && !r.contains(x) ==> seq_lt(r.last(), x)
}

/// The `k` smallest distinct strings of `all`, in increasing order.
pub fn select_smallest_distinct(all: &Vec<String>, k: usize) -> (r: Vec<String>)
    ensures
        smallest_distinct(string_views(all@), string_views(r@), k as nat),
{
    let ghost av = string_views(all@);
    let mut r: Vec<String> = Vec::new();
    loop
        invariant
            av == string_views(all@),
            r.len() <= k,
            forall|i: int, j: int|
                0 <= i < j < r.len() ==> seq_lt(#[trigger] string_views(r@)[i], #[trigger] string_views(r@)[j]),
            forall|i: int| 0 <= i < r.len() ==> av.contains(#[trigger] string_views(r@)[i]),
            r.len() > 0 ==> forall|x: Seq<char>|
                #[trigger] av.contains(x) && !seq_lt(string_views(r@).last(), x) ==> string_views(r@).contains(x),
        ensures
            smallest_distinct(av, string_views(r@), k as nat),
        decreases k - r.len(),
    {
        let ghost rv = string_views(r@);
        if r.len() >= k {
            proof {
                if k > 0 {
                    assert forall|x: Seq<char>| #[trigger] av.contains(x) && !rv.contains(x) implies seq_lt(rv.last(), x) by {
                        if !seq_lt(rv.last(), x) {
                            assert(rv.contains(x));
                        }
                    }
                }
            }
            break;
        }
        let mut best: usize = 0;
        let mut found = false;
        let mut i: usize = 0;
        while i < all.len()
            invariant
                av == string_views(all@),
                rv == string_views(r@),
                i <= all.len(),
                found ==> best < all.len(),
                found ==> (r.len() == 0 || seq_lt(rv.last(), av[best as int])),
                found ==> forall|m: int|
                    0 <= m < i && (r.len() == 0 || seq_lt(rv.last(), #[trigger] av[m])) ==> !seq_lt(av[m], av[best as int]),
                !found ==> forall|m: int| 0 <= m < i ==> !(r.len() == 0 || seq_lt(rv.last(), #[trigger] av[m])),
            decreases all.len() - i,
        {
            let candidate = if r.len() == 0 {
                true
            } else {
                str_lt(r[r.len() - 1].as_str(), all[i].as_str())
            };
            if candidate {
                if !found || str_lt(all[i].as_str(), all[best].as_str()) {
                    proof {
                        if found {
                            assert forall|m: int|
                                0 <= m < i + 1 && (r.len() == 0 || seq_lt(rv.last(), #[trigger] av[m])) implies !seq_lt(av[m], av[i as int]) by {
                                if m < i && seq_lt(av[m], av[i as int]) {
                                    lemma_seq_lt_transitive(av[m], av[i as int], av[best as int]);
                                }
                                if m == i {
                                    lemma_seq_lt_irreflexive(av[i as int]);
                                }
                            }
                        } else {
                            lemma_seq_lt_irreflexive(av[i as int]);
                        }
                    }
                    best = i;
                    found = true;
                } else {
                    proof {
                        assert(!seq_lt(av[i as int], av[best as int]));
                    }
                }
            }
            i = i + 1;
        }
        if !found {
            proof {
                assert forall|x: Seq<char>| #[trigger] av.contains(x) implies rv.contains(x) by {
                    let m = choose|m: int| 0 <= m < av.len() && av[m] == x;
                    assert(!(r.len() == 0 || seq_lt(rv.last(), av[m])));
                }
            }
            break;
        }
        let ghost m = av[best as int];
        r.push(all[best].clone());
        proof {
            let nv = string_views(r@);
            assert(nv =~= rv.push(m));
            assert forall|a: int, b: int| 0 <= a < b < nv.len() implies seq_lt(#[trigger] nv[a], #[trigger] nv[b]) by {
                if b == nv.len() - 1 && a < b {
                    if a < rv.len() - 1 {
                        assert(seq_lt(rv[a], rv.last()));
                        lemma_seq_lt_transitive(rv[a], rv.last(), m);
                    }
                } else {
                    assert(nv[a] == rv[a]);
                    assert(nv[b] == rv[b]);
                }
            }
            assert forall|a: int| 0 <= a < nv.len() implies av.contains(#[trigger] nv[a]) by {
                if a < rv.len() {
                    assert(nv[a] == rv[a]);
                }
            }
            assert forall|x: Seq<char>| #[trigger] av.contains(x) && !seq_lt(nv.last(), x) implies nv.contains(x) by {
                let mi = choose|mi: int| 0 <= mi < av.len() && av[mi] == x;
                if rv.len() > 0 && !seq_lt(rv.last(), x) {
                    assert(rv.contains(x));
                    let q = choose|q: int| 0 <= q < rv.len() && rv[q] == x;
                    assert(nv[q] == x);
                } else {
                    if x != m {
                        lemma_seq_lt_total(x, m);
                        assert(!seq_lt(av[mi], av[best as int]));
                    }
                    assert(nv[nv.len() - 1] == m);
                }
            }
        }
    }
    r
}

} // verus!


verus! {

/// Technical terms and what they expand to.
pub open spec fn technical_table() -> Seq<(Seq<char>, Seq<Seq<char>>)> {
    seq![
        ("api"@, seq!["application programming interface"@, "endpoint"@, "rest"@, "restful"@, "graphql"@, "web service"@, "http"@]),
        ("config"@, seq!["configuration"@, "settings"@, "parameters"@, "options"@, "environment"@, "env"@]),
        ("auth"@, seq!["authentication"@, "authorization"@, "security"@, "login"@, "token"@, "jwt"@, "oauth"@]),
        ("db"@, seq!["database"@, "storage"@, "persistence"@, "sql"@, "nosql"@]),
        ("test"@, seq!["testing"@, "unit test"@, "integration test"@, "benchmark"@, "validation"@]),
        ("markdown"@, seq!["md"@, "markup"@, "documentation"@, "format"@, "text formatting"@, "content"@]),
        ("mdx"@, seq!["markdown"@, "jsx"@, "react markdown"@, "component"@, "interactive documentation"@]),
        ("html"@, seq!["hypertext markup language"@, "web"@, "markup"@, "tag"@, "element"@, "dom"@]),
        ("content"@, seq!["document"@, "text"@, "information"@, "data"@, "material"@]),
        ("processing"@, seq!["parsing"@, "transformation"@, "conversion"@, "handling"@, "indexing"@]),
    ]
}

/// Words and their synonyms.
pub open spec fn synonym_table() -> Seq<(Seq<char>, Seq<Seq<char>>)> {
    seq![
        ("search"@, seq!["find"@, "query"@, "lookup"@, "retrieve"@, "discover"@]),
        ("error"@, seq!["issue"@, "problem"@, "bug"@, "failure"@, "exception"@, "fault"@]),
        ("build"@, seq!["compile"@, "construct"@, "create"@, "generate"@]),
        ("run"@, seq!["execute"@, "start"@, "launch"@, "invoke"@]),
    ]
}

/// Phrases that mark a kind of question, and the terms they add.
pub open spec fn context_table() -> Seq<(Seq<char>, Seq<Seq<char>>)> {
    seq![
        ("how to"@, seq!["tutorial"@, "guide"@, "example"@, "documentation"@, "instructions"@]),
        ("setup"@, seq!["installation"@, "configure"@, "initialize"@, "prepare"@]),
    ]
}

/// Common phrases and the terms they add.
pub open spec fn pattern_table() -> Seq<(Seq<char>, Seq<Seq<char>>)> {
    seq![
        ("get started"@, seq!["introduction"@, "quick start"@, "getting started"@, "first steps"@, "setup guide"@]),
        ("best practices"@, seq!["recommendations"@, "guidelines"@, "standards"@, "conventions"@]),
    ]
}

/// The view of a term table: each phrase with its terms.
pub open spec fn table_view(t: Seq<(&'static str, Vec<&'static str>)>) -> Seq<(Seq<char>, Seq<Seq<char>>)> {
    t.map_values(|p: (&'static str, Vec<&'static str>)| (p.0@, p.1@.map_values(|x: &'static str| x@)))
}

/// The terms listed under `key` (at its first entry), or none.
pub open spec fn terms_for(t: Seq<(Seq<char>, Seq<Seq<char>>)>, key: Seq<char>) -> Seq<Seq<char>>
    decreases t.len(),
{
    if t.len() == 0 {
        Seq::empty()
    } else if t[0].0 == key {
        t[0].1
    } else {
        terms_for(t.drop_first(), key)
    }
}

/// Some entry of the table is under `key`.
pub open spec fn has_entry(t: Seq<(Seq<char>, Seq<Seq<char>>)>, key: Seq<char>) -> bool {
    exists|i: int| 0 <= i < t.len() && #[trigger] t[i].0 == key
}

/// The terms of every entry whose phrase occurs in `text`, in table order.
pub open spec fn phrase_terms(t: Seq<(Seq<char>, Seq<Seq<char>>)>, text: Seq<char>) -> Seq<Seq<char>>
    decreases t.len(),
{
    if t.len() == 0 {
        Seq::empty()
    } else if seq_contains(text, t.last().0) {
        phrase_terms(t.drop_last(), text) + t.last().1
    } else {
        phrase_terms(t.drop_last(), text)
    }
}

/// For each word in turn, the technical terms and then the synonyms listed
/// under its lower-case form.
pub open spec fn word_terms(ws: Seq<Seq<char>>, tech: Seq<(Seq<char>, Seq<Seq<char>>)>, syn: Seq<(Seq<char>, Seq<Seq<char>>)>) -> Seq<Seq<char>>
    decreases ws.len(),
{
    if ws.len() == 0 {
        Seq::empty()
    } else {
        word_terms(ws.drop_last(), tech, syn) + terms_for(tech, lowercase_of(ws.last())) + terms_for(
            syn,
            lowercase_of(ws.last()),
        )
    }
}

/// `t` is one of the synonyms of the table.
pub open spec fn is_listed_synonym(syn: Seq<(Seq<char>, Seq<Seq<char>>)>, t: Seq<char>) -> bool {
    exists|i: int| 0 <= i < syn.len() && #[trigger] syn[i].1.contains(t)
}

/// The terms of `es` that are synonyms in the table, in order.
pub open spec fn synonyms_among(es: Seq<Seq<char>>, syn: Seq<(Seq<char>, Seq<Seq<char>>)>) -> Seq<Seq<char>>
    decreases es.len(),
{
    if es.len() == 0 {
        Seq::empty()
    } else if is_listed_synonym(syn, es.last()) {
        synonyms_among(es.drop_last(), syn).push(es.last())
    } else {
        synonyms_among(es.drop_last(), syn)
    }
}

/// What a query is about, from its wording.
#[derive(Debug, Clone, Copy)]
pub struct QueryContext {
    pub is_question: bool,
    pub is_troubleshooting: bool,
    pub is_tutorial: bool,
    pub is_setup: bool,
}

/// The context of a query: a question when it has a `?` or its lower-case
/// form starts with "how", "what" or "why"; troubleshooting, tutorial and
/// setup by the words its lower-case form contains.
pub open spec fn context_of(q: Seq<char>) -> QueryContext {
    let low = lowercase_of(q);
    QueryContext {
        is_question: seq_contains(q, "?"@) || seq_starts_with(low, "how"@) || seq_starts_with(low, "what"@)
            || seq_starts_with(low, "why"@),
        is_troubleshooting: seq_contains(low, "error"@) || seq_contains(low, "issue"@) || seq_contains(
            low,
            "problem"@,
        ) || seq_contains(low, "fix"@),
        is_tutorial: seq_contains(low, "tutorial"@) || seq_contains(low, "guide"@) || seq_contains(
            low,
            "how to"@,
        ),
        is_setup: seq_contains(low, "setup"@) || seq_contains(low, "install"@) || seq_contains(
            low,
            "configure"@,
        ),
    }
}

/// The fixed terms a context adds.
pub open spec fn context_flag_terms(c: QueryContext) -> Seq<Seq<char>> {
    (if c.is_question { seq!["documentation"@, "reference"@] } else { Seq::empty() }) + (if c.is_troubleshooting {
        seq!["debug"@, "fix"@, "resolve"@]
    } else {
        Seq::empty()
    }) + (if c.is_tutorial { seq!["example"@, "step by step"@] } else { Seq::empty() }) + (if c.is_setup {
        seq!["installation"@, "getting started"@]
    } else {
        Seq::empty()
    })
}

/// The enhanced text: the query, then a space and the expansions joined by
/// spaces when there are any.
pub open spec fn enhanced_text(q: Seq<char>, sel: Seq<Seq<char>>) -> Seq<char> {
    if sel.len() == 0 {
        q
    } else {
        q + seq![' '] + join_spaced(sel)
    }
}

/// The name of the expansion strategy, with the number of terms added.
pub open spec fn strategy_text(n: nat) -> Seq<char> {
    "context_aware_multi_factor("@ + decimal(n) + ")"@
}

/// What a query asks for.
#[derive(Debug, Clone, Copy, PartialEq, Eq, Structural)]
pub enum QueryIntent {
    Documentation,
    Troubleshooting,
    Reference,
    Tutorial,
    Code,
    Unknown,
}

/// How involved a query is.
#[derive(Debug, Clone, Copy, PartialEq, Eq, Structural)]
pub enum QueryComplexity {
    Simple,
    Moderate,
    Complex,
}

/// The intent of a query by the words it contains, as written: the first of
/// documentation ("how", "what", "?"), troubleshooting ("error", "issue",
/// "problem"), reference ("config", "setup", "install"), tutorial
/// ("tutorial", "guide") and code ("code", "example") that matches.
pub open spec fn intent_of(q: Seq<char>) -> QueryIntent {
    if seq_contains(q, "how"@) || seq_contains(q, "what"@) || seq_contains(q, "?"@) {
        QueryIntent::Documentation
    } else if seq_contains(q, "error"@) || seq_contains(q, "issue"@) || seq_contains(q, "problem"@) {
        QueryIntent::Troubleshooting
    } else if seq_contains(q, "config"@) || seq_contains(q, "setup"@) || seq_contains(q, "install"@) {
        QueryIntent::Reference
    } else if seq_contains(q, "tutorial"@) || seq_contains(q, "guide"@) {
        QueryIntent::Tutorial
    } else if seq_contains(q, "code"@) || seq_contains(q, "example"@) {
        QueryIntent::Code
    } else {
        QueryIntent::Unknown
    }
}

/// Complexity by word count: one or two words are simple, three to five
/// moderate, anything else (none included) complex.
pub open spec fn complexity_of(word_count: nat) -> QueryComplexity {
    if 1 <= word_count <= 2 {
        QueryComplexity::Simple
    } else if 3 <= word_count <= 5 {
        QueryComplexity::Moderate
    } else {
        QueryComplexity::Complex
    }
}

/// The words of `ws` whose lower-case form is a technical term, in order.
pub open spec fn technical_words(ws: Seq<Seq<char>>, tech: Seq<(Seq<char>, Seq<Seq<char>>)>) -> Seq<Seq<char>>
    decreases ws.len(),
{
    if ws.len() == 0 {
        Seq::empty()
    } else if has_entry(tech, lowercase_of(ws.last())) {
        technical_words(ws.drop_last(), tech).push(ws.last())
    } else {
        technical_words(ws.drop_last(), tech)
    }
}

/// A query expanded with related terms.
#[derive(Debug, Clone)]
pub struct EnhancedQuery {
    pub original: String,
    pub enhanced: String,
    pub synonyms_added: Vec<String>,
    pub technical_terms: Vec<String>,
    pub expansion_strategy: String,
}

/// The analysis of a query: its intent, its complexity and the technical
/// terms among its words (each of which is also a concept entity).
#[derive(Debug, Clone)]
pub struct QueryAnalysis {
    pub intent: QueryIntent,
    pub complexity: QueryComplexity,
    pub technical_terms: Vec<String>,
    pub entities: Vec<String>,
}

/// Expands queries from fixed tables of technical terms, synonyms, context
/// phrases and common phrases.
pub struct SimpleQueryEnhancer {
    technical_terms: Vec<(&'static str, Vec<&'static str>)>,
    synonyms: Vec<(&'static str, Vec<&'static str>)>,
    context_rules: Vec<(&'static str, Vec<&'static str>)>,
    pattern_expansions: Vec<(&'static str, Vec<&'static str>)>,
}

/// Appends the strings of `terms` to `out`.
fn push_terms(out: &mut Vec<String>, terms: &Vec<&'static str>)
    ensures
        string_views(final(out)@) == string_views(old(out)@) + terms@.map_values(|x: &'static str| x@),
{
    let mut i: usize = 0;
    while i < terms.len()
        invariant
            i <= terms.len(),
            string_views(out@) == string_views(old(out)@) + terms@.map_values(|x: &'static str| x@).take(i as int),
        decreases terms.len() - i,
    {
        let ghost before = out@;
        out.push(terms[i].to_owned());
        assert(string_views(out@) =~= string_views(before).push(terms@[i as int]@));
        assert(terms@.map_values(|x: &'static str| x@).take(i + 1) =~= terms@.map_values(|x: &'static str| x@).take(i as int).push(terms@[i as int]@));
        i = i + 1;
    }
    assert(terms@.map_values(|x: &'static str| x@).take(terms.len() as int) =~= terms@.map_values(|x: &'static str| x@));
}

/// Appends the terms listed under `key` in `table`.
fn push_terms_for(out: &mut Vec<String>, table: &Vec<(&'static str, Vec<&'static str>)>, key: &str)
    ensures
        string_views(final(out)@) == string_views(old(out)@) + terms_for(table_view(table@), key@),
{
    let ghost tv = table_view(table@);
    let mut i: usize = 0;
    assert(tv.skip(0) == tv);
    while i < table.len()
        invariant
            i <= table.len(),
            tv == table_view(table@),
            *out == *old(out),
            terms_for(tv, key@) == terms_for(tv.skip(i as int), key@),
        decreases table.len() - i,
    {
        assert(tv.skip(i as int)[0] == tv[i as int]);
        if crate::text::str_eq(table[i].0, key) {
            push_terms(out, &table[i].1);
            return;
        }
        assert(tv.skip(i as int).drop_first() == tv.skip(i + 1));
        i = i + 1;
    }
}

/// Whether some entry of `table` is under `key`.
fn table_has(table: &Vec<(&'static str, Vec<&'static str>)>, key: &str) -> (r: bool)
    ensures
        r == has_entry(table_view(table@), key@),
{
    let ghost tv = table_view(table@);
    let mut i: usize = 0;
    while i < table.len()
        invariant
            i <= table.len(),
            tv == table_view(table@),
            forall|k: int| 0 <= k < i ==> tv[k].0 != key@,
        decreases table.len() - i,
    {
        if crate::text::str_eq(table[i].0, key) {
            assert(tv[i as int].0 == key@);
            return true;
        }
        i = i + 1;
    }
    false
}

/// Appends the terms of every entry of `table` whose phrase occurs in `text`.
fn push_phrase_terms(out: &mut Vec<String>, table: &Vec<(&'static str, Vec<&'static str>)>, text: &str)
    ensures
        string_views(final(out)@) == string_views(old(out)@) + phrase_terms(table_view(table@), text@),
{
    let ghost tv = table_view(table@);
    let ghost start = string_views(out@);
    let mut i: usize = 0;
    while i < table.len()
        invariant
            i <= table.len(),
            tv == table_view(table@),
            start == string_views(old(out)@),
            string_views(out@) == start + phrase_terms(tv.take(i as int), text@),
        decreases table.len() - i,
    {
        assert(tv.take(i + 1).drop_last() == tv.take(i as int));
        assert(tv.take(i + 1).last() == tv[i as int]);
        if str_contains(text, table[i].0) {
            push_terms(out, &table[i].1);
        }
        i = i + 1;
    }
    assert(tv.take(table.len() as int) == tv);
}

impl SimpleQueryEnhancer {
    /// The technical terms table.
    pub closed spec fn technical(&self) -> Seq<(Seq<char>, Seq<Seq<char>>)> {
        table_view(self.technical_terms@)
    }

    /// The synonyms table.
    pub closed spec fn synonym_rules(&self) -> Seq<(Seq<char>, Seq<Seq<char>>)> {
        table_view(self.synonyms@)
    }

    /// The context phrases table.
    pub closed spec fn context(&self) -> Seq<(Seq<char>, Seq<Seq<char>>)> {
        table_view(self.context_rules@)
    }

    /// The common phrases table.
    pub closed spec fn patterns(&self) -> Seq<(Seq<char>, Seq<Seq<char>>)> {
        table_view(self.pattern_expansions@)
    }

    /// An enhancer with the built-in tables.
    pub fn new() -> (e: Self)
        ensures
            e.technical() == technical_table(),
            e.synonym_rules() == synonym_table(),
            e.context() == context_table(),
            e.patterns() == pattern_table(),
    {
    let technical_terms: Vec<(&'static str, Vec<&'static str>)> = vec![
        ("api", vec!["application programming interface", "endpoint", "rest", "restful", "graphql", "web service", "http"]),
        ("config", vec!["configuration", "settings", "parameters", "options", "environment", "env"]),
        ("auth", vec!["authentication", "authorization", "security", "login", "token", "jwt", "oauth"]),
        ("db", vec!["database", "storage", "persistence", "sql", "nosql"]),
        ("test", vec!["testing", "unit test", "integration test", "benchmark", "validation"]),
        ("markdown", vec!["md", "markup", "documentation", "format", "text formatting", "content"]),
        ("mdx", vec!["markdown", "jsx", "react markdown", "component", "interactive documentation"]),
        ("html", vec!["hypertext markup language", "web", "markup", "tag", "element", "dom"]),
        ("content", vec!["document", "text", "information", "data", "material"]),
        ("processing", vec!["parsing", "transformation", "conversion", "handling", "indexing"]),
    ];
    let synonyms: Vec<(&'static str, Vec<&'static str>)> = vec![
        ("search", vec!["find", "query", "lookup", "retrieve", "discover"]),
        ("error", vec!["issue", "problem", "bug", "failure", "exception", "fault"]),
        ("build", vec!["compile", "construct", "create", "generate"]),
        ("run", vec!["execute", "start", "launch", "invoke"]),
    ];
    let context_rules: Vec<(&'static str, Vec<&'static str>)> = vec![
        ("how to", vec!["tutorial", "guide", "example", "documentation", "instructions"]),
        ("setup", vec!["installation", "configure", "initialize", "prepare"]),
    ];
    let pattern_expansions: Vec<(&'static str, Vec<&'static str>)> = vec![
        ("get started", vec!["introduction", "quick start", "getting started", "first steps", "setup guide"]),
        ("best practices", vec!["recommendations", "guidelines", "standards", "conventions"]),
    ];
        let e = SimpleQueryEnhancer { technical_terms, synonyms, context_rules, pattern_expansions };
        assert(e.technical()[0].1 =~= technical_table()[0].1);
        assert(e.technical()[1].1 =~= technical_table()[1].1);
        assert(e.technical()[2].1 =~= technical_table()[2].1);
        assert(e.technical()[3].1 =~= technical_table()[3].1);
        assert(e.technical()[4].1 =~= technical_table()[4].1);
        assert(e.technical()[5].1 =~= technical_table()[5].1);
        assert(e.technical()[6].1 =~= technical_table()[6].1);
        assert(e.technical()[7].1 =~= technical_table()[7].1);
        assert(e.technical()[8].1 =~= technical_table()[8].1);
        assert(e.technical()[9].1 =~= technical_table()[9].1);
        assert(e.synonym_rules()[0].1 =~= synonym_table()[0].1);
        assert(e.synonym_rules()[1].1 =~= synonym_table()[1].1);
        assert(e.synonym_rules()[2].1 =~= synonym_table()[2].1);
        assert(e.synonym_rules()[3].1 =~= synonym_table()[3].1);
        assert(e.context()[0].1 =~= context_table()[0].1);
        assert(e.context()[1].1 =~= context_table()[1].1);
        assert(e.patterns()[0].1 =~= pattern_table()[0].1);
        assert(e.patterns()[1].1 =~= pattern_table()[1].1);
        assert(e.technical() =~= technical_table());
        assert(e.synonym_rules() =~= synonym_table());
        assert(e.context() =~= context_table());
        assert(e.patterns() =~= pattern_table());
        e
    }

    /// The context of `query`.
    pub fn analyze_query_context(&self, query: &str) -> (c: QueryContext)
        ensures
            c == context_of(query@),
    {
        let low = to_lowercase(query);
        let l = low.as_str();
        QueryContext {
            is_question: str_contains(query, "?") || crate::text::str_starts_with(l, "how")
                || crate::text::str_starts_with(l, "what") || crate::text::str_starts_with(l, "why"),
            is_troubleshooting: str_contains(l, "error") || str_contains(l, "issue") || str_contains(l, "problem")
                || str_contains(l, "fix"),
            is_tutorial: str_contains(l, "tutorial") || str_contains(l, "guide") || str_contains(l, "how to"),
            is_setup: str_contains(l, "setup") || str_contains(l, "install") || str_contains(l, "configure"),
        }
    }

    /// The context phrases' terms for `query`, then the terms its context
    /// adds.
    pub fn expand_with_context(&self, query: &str, context: &QueryContext) -> (r: Vec<String>)
        ensures
            string_views(r@) == phrase_terms(self.context(), lowercase_of(query@)) + context_flag_terms(*context),
    {
        let low = to_lowercase(query);
        let mut out: Vec<String> = Vec::new();
        push_phrase_terms(&mut out, &self.context_rules, low.as_str());
        let ghost base = string_views(out@);
        let ghost c = *context;
        let q: Vec<&'static str> = if context.is_question { vec!["documentation", "reference"] } else { vec![] };
        let t: Vec<&'static str> = if context.is_troubleshooting { vec!["debug", "fix", "resolve"] } else { vec![] };
        let u: Vec<&'static str> = if context.is_tutorial { vec!["example", "step by step"] } else { vec![] };
        let v: Vec<&'static str> = if context.is_setup { vec!["installation", "getting started"] } else { vec![] };
        push_terms(&mut out, &q);
        push_terms(&mut out, &t);
        push_terms(&mut out, &u);
        push_terms(&mut out, &v);
        assert(q@.map_values(|x: &'static str| x@) =~= (if c.is_question { seq!["documentation"@, "reference"@] } else { Seq::empty() }));
        assert(t@.map_values(|x: &'static str| x@) =~= (if c.is_troubleshooting { seq!["debug"@, "fix"@, "resolve"@] } else { Seq::empty() }));
        assert(u@.map_values(|x: &'static str| x@) =~= (if c.is_tutorial { seq!["example"@, "step by step"@] } else { Seq::empty() }));
        assert(v@.map_values(|x: &'static str| x@) =~= (if c.is_setup { seq!["installation"@, "getting started"@] } else { Seq::empty() }));
        assert(string_views(out@) =~= base + context_flag_terms(c));
        out
    }

    /// The common phrases' terms for `query`.
    pub fn expand_with_patterns(&self, query: &str) -> (r: Vec<String>)
        ensures
            string_views(r@) == phrase_terms(self.patterns(), lowercase_of(query@)),
    {
        let low = to_lowercase(query);
        let mut out: Vec<String> = Vec::new();
        push_phrase_terms(&mut out, &self.pattern_expansions, low.as_str());
        assert(string_views(out@) =~= phrase_terms(self.patterns(), lowercase_of(query@)));
        out
    }

    /// For each word of `query`, the technical terms and the synonyms listed
    /// under its lower-case form.
    pub fn expand_query_terms(&self, query: &str) -> (r: Vec<String>)
        ensures
            string_views(r@) == word_terms(words(query@), self.technical(), self.synonym_rules()),
    {
        let ws = words_of(query);
        let ghost wv = string_views(ws@);
        let mut out: Vec<String> = Vec::new();
        let mut i: usize = 0;
        while i < ws.len()
            invariant
                i <= ws.len(),
                wv == string_views(ws@),
                wv == words(query@),
                string_views(out@) == word_terms(wv.take(i as int), self.technical(), self.synonym_rules()),
            decreases ws.len() - i,
        {
            let ghost cur = wv.take(i + 1);
            assert(cur.drop_last() == wv.take(i as int));
            assert(cur.last() == ws@[i as int]@);
            let low = to_lowercase(ws[i].as_str());
            push_terms_for(&mut out, &self.technical_terms, low.as_str());
            push_terms_for(&mut out, &self.synonyms, low.as_str());
            i = i + 1;
        }
        assert(wv.take(ws.len() as int) == wv);
        out
    }

    /// Whether `term` is one of the listed synonyms.
    fn is_synonym(&self, term: &str) -> (r: bool)
        ensures
            r == is_listed_synonym(self.synonym_rules(), term@),
    {
        let ghost sv = self.synonym_rules();
        let mut i: usize = 0;
        while i < self.synonyms.len()
            invariant
                i <= self.synonyms.len(),
                sv == self.synonym_rules(),
                forall|k: int| 0 <= k < i ==> !(#[trigger] sv[k]).1.contains(term@),
            decreases self.synonyms.len() - i,
        {
            let list = &self.synonyms[i].1;
            let mut j: usize = 0;
            while j < list.len()
                invariant
                    j <= list.len(),
                    sv == self.synonym_rules(),
                    i < self.synonyms.len(),
                    *list == self.synonyms@[i as int].1,
                    forall|m: int| 0 <= m < j ==> list@[m]@ != term@,
                decreases list.len() - j,
            {
                if crate::text::str_eq(list[j], term) {
                    assert(sv[i as int].1[j as int] == term@);
                    assert(sv[i as int].1.contains(term@));
                    return true;
                }
                j = j + 1;
            }
            assert(!sv[i as int].1.contains(term@)) by {
                if sv[i as int].1.contains(term@) {
                    let m = choose|m: int| 0 <= m < sv[i as int].1.len() && sv[i as int].1[m] == term@;
                    assert(list@[m]@ == term@);
                }
            }
            i = i + 1;
        }
        false
    }

    /// The terms of `expansions` that are listed synonyms, in order.
    pub fn extract_synonyms_from_expansion(&self, expansions: &Vec<String>) -> (r: Vec<String>)
        ensures
            string_views(r@) == synonyms_among(string_views(expansions@), self.synonym_rules()),
    {
        let ghost ev = string_views(expansions@);
        let mut out: Vec<String> = Vec::new();
        let mut i: usize = 0;
        while i < expansions.len()
            invariant
                i <= expansions.len(),
                ev == string_views(expansions@),
                string_views(out@) == synonyms_among(ev.take(i as int), self.synonym_rules()),
            decreases expansions.len() - i,
        {
            let ghost cur = ev.take(i + 1);
            assert(cur.drop_last() == ev.take(i as int));
            assert(cur.last() == expansions@[i as int]@);
            if self.is_synonym(expansions[i].as_str()) {
                let ghost before = out@;
                out.push(expansions[i].clone());
                assert(string_views(out@) =~= string_views(before).push(expansions@[i as int]@));
            }
            i = i + 1;
        }
        assert(ev.take(expansions.len() as int) == ev);
        out
    }

    /// The words of `query` whose lower-case form is a technical term.
    pub fn extract_entities(&self, query: &str) -> (r: Vec<String>)
        ensures
            string_views(r@) == technical_words(words(query@), self.technical()),
    {
        let ws = words_of(query);
        let ghost wv = string_views(ws@);
        let mut out: Vec<String> = Vec::new();
        let mut i: usize = 0;
        while i < ws.len()
            invariant
                i <= ws.len(),
                wv == string_views(ws@),
                wv == words(query@),
                string_views(out@) == technical_words(wv.take(i as int), self.technical()),
            decreases ws.len() - i,
        {
            let ghost cur = wv.take(i + 1);
            assert(cur.drop_last() == wv.take(i as int));
            assert(cur.last() == ws@[i as int]@);
            let low = to_lowercase(ws[i].as_str());
            if table_has(&self.technical_terms, low.as_str()) {
                let ghost before = out@;
                out.push(ws[i].clone());
                assert(string_views(out@) =~= string_views(before).push(ws@[i as int]@));
            }
            i = i + 1;
        }
        assert(wv.take(ws.len() as int) == wv);
        out
    }

    /// Every expansion of `query` before selection: context phrases and
    /// context terms, then word terms, then common phrases.
    pub open spec fn all_expansions(&self, q: Seq<char>) -> Seq<Seq<char>> {
        phrase_terms(self.context(), lowercase_of(q)) + context_flag_terms(context_of(q)) + word_terms(
            words(q),
            self.technical(),
            self.synonym_rules(),
        ) + phrase_terms(self.patterns(), lowercase_of(q))
    }

    /// Expands `query`: the expansions are sorted, their duplicates dropped
    /// and the first eight kept; the enhanced query is the query followed by
    /// them, space separated.
    pub fn enhance(&self, query: &str) -> (r: EnhancedQuery)
        ensures
            r.original@ == query@,
            smallest_distinct(self.all_expansions(query@), string_views(r.technical_terms@), 8),
            r.enhanced@ == enhanced_text(query@, string_views(r.technical_terms@)),
            string_views(r.synonyms_added@) == synonyms_among(string_views(r.technical_terms@), self.synonym_rules()),
            r.expansion_strategy@ == strategy_text(r.technical_terms@.len()),
    {
        let ctx = self.analyze_query_context(query);
        let mut all = self.expand_with_context(query, &ctx);
        let mut tech = self.expand_query_terms(query);
        let mut pat = self.expand_with_patterns(query);
        let ghost a0 = all@;
        let ghost t0 = tech@;
        let ghost p0 = pat@;
        all.append(&mut tech);
        all.append(&mut pat);
        assert(all@ == a0 + t0 + p0);
        assert(string_views(all@) =~= string_views(a0) + string_views(t0) + string_views(p0));
        let sel = select_smallest_distinct(&all, MAX_EXPANSIONS);
        let enhanced = if sel.len() == 0 {
            query.to_owned()
        } else {
            let mut s = query.to_owned();
            push_str(&mut s, " ");
            let joined = join_with_spaces(&sel);
            push_str(&mut s, joined.as_str());
            proof {
                reveal_strlit(" ");
            }
            s
        };
        let synonyms_added = self.extract_synonyms_from_expansion(&sel);
        let mut strategy = "context_aware_multi_factor(".to_owned();
        let count = u64_to_string(sel.len() as u64);
        push_str(&mut strategy, count.as_str());
        push_str(&mut strategy, ")");
        EnhancedQuery {
            original: query.to_owned(),
            enhanced,
            synonyms_added,
            technical_terms: sel,
            expansion_strategy: strategy,
        }
    }

    /// Analyses `query`: its intent, its complexity by word count, and the
    /// words that are technical terms.
    pub fn analyze(&self, query: &str) -> (r: QueryAnalysis)
        ensures
            r.intent == intent_of(query@),
            r.complexity == complexity_of(words(query@).len()),
            string_views(r.technical_terms@) == technical_words(words(query@), self.technical()),
            string_views(r.entities@) == technical_words(words(query@), self.technical()),
    {
        let ws = words_of(query);
        let n = ws.len();
        let intent = if str_contains(query, "how") || str_contains(query, "what") || str_contains(query, "?") {
            QueryIntent::Documentation
        } else if str_contains(query, "error") || str_contains(query, "issue") || str_contains(query, "problem") {
            QueryIntent::Troubleshooting
        } else if str_contains(query, "config") || str_contains(query, "setup") || str_contains(query, "install") {
            QueryIntent::Reference
        } else if str_contains(query, "tutorial") || str_contains(query, "guide") {
            QueryIntent::Tutorial
        } else if str_contains(query, "code") || str_contains(query, "example") {
            QueryIntent::Code
        } else {
            QueryIntent::Unknown
        };
        let complexity = if 1 <= n && n <= 2 {
            QueryComplexity::Simple
        } else if 3 <= n && n <= 5 {
            QueryComplexity::Moderate
        } else {
            QueryComplexity::Complex
        };
        let technical_terms = self.extract_entities(query);
        let entities = self.extract_entities(query);
        QueryAnalysis { intent, complexity, technical_terms, entities }
    }
}


/// A query's complexity follows its number of whitespace-separated words:
/// simple for one or two, moderate for three to five, complex for none or
/// six and more.
pub proof fn law_complexity_by_word_count(query: Seq<char>)
    ensures
        (complexity_of(words(query).len()) == QueryComplexity::Simple) <==> (1 <= words(query).len()
            && words(query).len() <= 2),
        (complexity_of(words(query).len()) == QueryComplexity::Moderate) <==> (3 <= words(query).len()
            && words(query).len() <= 5),
        (complexity_of(words(query).len()) == QueryComplexity::Complex) <==> (words(query).len() == 0
            || words(query).len() >= 6),
{
}


/// A query's intent follows the words it contains, in this order of
/// precedence: "how", "what" or "?" ask for documentation; otherwise
/// "error", "issue" or "problem" for troubleshooting; otherwise "config",
/// "setup" or "install" for reference; otherwise "tutorial" or "guide" for a
/// tutorial; otherwise "code" or "example" for code; and nothing of these
/// leaves it unknown.
pub proof fn law_intent_by_words(q: Seq<char>)
    ensures
        (seq_contains(q, "how"@) || seq_contains(q, "what"@) || seq_contains(q, "?"@)) ==> intent_of(q)
            == QueryIntent::Documentation,
        !(seq_contains(q, "how"@) || seq_contains(q, "what"@) || seq_contains(q, "?"@)) && (seq_contains(q, "error"@)
            || seq_contains(q, "issue"@) || seq_contains(q, "problem"@)) ==> intent_of(q) == QueryIntent::Troubleshooting,
        intent_of(q) == QueryIntent::Reference ==> (seq_contains(q, "config"@) || seq_contains(q, "setup"@)
            || seq_contains(q, "install"@)),
        intent_of(q) == QueryIntent::Tutorial ==> (seq_contains(q, "tutorial"@) || seq_contains(q, "guide"@)),
        intent_of(q) == QueryIntent::Code ==> (seq_contains(q, "code"@) || seq_contains(q, "example"@)),
        intent_of(q) == QueryIntent::Unknown ==> !seq_contains(q, "how"@) && !seq_contains(q, "what"@)
            && !seq_contains(q, "?"@) && !seq_contains(q, "error"@) && !seq_contains(q, "issue"@)
            && !seq_contains(q, "problem"@) && !seq_contains(q, "config"@) && !seq_contains(q, "setup"@)
            && !seq_contains(q, "install"@) && !seq_contains(q, "tutorial"@) && !seq_contains(q, "guide"@)
            && !seq_contains(q, "code"@) && !seq_contains(q, "example"@),
{
}

} // verus!
