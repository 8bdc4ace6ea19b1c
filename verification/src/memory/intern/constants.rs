//! An interner preloaded with the strings the indexer meets most often:
//! file extensions, content types, metadata keys, collection names and paths.

use vstd::prelude::*;
use crate::memory::intern::{intern_all, intern_result, law_intern_preserves, no_duplicates, InternedString, InternerStats, StringInterner};

verus! {

/// Interning `items` adds at most one entry per item.
pub proof fn lemma_intern_all_len(strings: Seq<Seq<char>>, items: Seq<Seq<char>>)
    ensures
        intern_all(strings, items).len() <= strings.len() + items.len(),
    decreases items.len(),
{
    if items.len() > 0 {
        lemma_intern_all_len(strings, items.drop_last());
    }
}

/// The preloaded strings, in the order they are interned.
pub open spec fn common_strings() -> Seq<Seq<char>> {
    seq![
        ".md"@, ".txt"@, ".rs"@, ".js"@, ".ts"@, ".py"@, ".html"@, ".json"@, ".yaml"@, ".toml"@,
        "markdown"@, "text"@, "rust"@, "javascript"@, "python"@, "html"@, "json"@, "yaml"@,
        "toml"@, "title"@, "author"@, "language"@, "content_type"@, "category"@, "tags"@,
        "default"@, "documents"@, "code"@, "notes"@, "src"@, "docs"@, "tests"@, "examples"@,
        "target"@, "node_modules"@, ".git"@,
    ]
}

/// The preloaded strings are distinct.
proof fn lemma_common_strings_distinct()
    ensures
        no_duplicates(common_strings()),
{
    reveal_strlit(".md");
    reveal_strlit(".txt");
    reveal_strlit(".rs");
    reveal_strlit(".js");
    reveal_strlit(".ts");
    reveal_strlit(".py");
    reveal_strlit(".html");
    reveal_strlit(".json");
    reveal_strlit(".yaml");
    reveal_strlit(".toml");
    reveal_strlit("markdown");
    reveal_strlit("text");
    reveal_strlit("rust");
    reveal_strlit("javascript");
    reveal_strlit("python");
    reveal_strlit("html");
    reveal_strlit("json");
    reveal_strlit("yaml");
    reveal_strlit("toml");
    reveal_strlit("title");
    reveal_strlit("author");
    reveal_strlit("language");
    reveal_strlit("content_type");
    reveal_strlit("category");
    reveal_strlit("tags");
    reveal_strlit("default");
    reveal_strlit("documents");
    reveal_strlit("code");
    reveal_strlit("notes");
    reveal_strlit("src");
    reveal_strlit("docs");
    reveal_strlit("tests");
    reveal_strlit("examples");
    reveal_strlit("target");
    reveal_strlit("node_modules");
    reveal_strlit(".git");
    let c = common_strings();
    assert forall|i: int, j: int| 0 <= i < c.len() && 0 <= j < c.len() && i != j implies c[i] != c[j] by {
        if c[i] == c[j] {
            assert(c[i].len() == c[j].len());
            assert(c[i][0] == c[j][0]);
            assert(c[i][c[i].len() - 1] == c[j][c[j].len() - 1]);
            assert(c[i][1] == c[j][1]);
        }
    }
}

/// A fresh interner holding the common strings, in `common_strings` order.
pub fn get_common_interner() -> (r: StringInterner)
    ensures
        r@ == intern_all(Seq::empty(), common_strings()),
        r@ == common_strings(),
        r.hits() == 0,
        r.misses() == common_strings().len(),
        no_duplicates(r@),
        r@.len() > 0 && r@[0] == ".md"@,
        forall|k: int| 0 <= k < common_strings().len() ==> r@.contains(#[trigger] common_strings()[k]),
        r.hits() + r.misses() == common_strings().len(),
        r.misses() == r@.len(),
{
    let list: Vec<&str> = vec![
        ".md", ".txt", ".rs", ".js", ".ts", ".py", ".html", ".json", ".yaml", ".toml",
        "markdown", "text", "rust", "javascript", "python", "html", "json", "yaml",
        "toml", "title", "author", "language", "content_type", "category", "tags",
        "default", "documents", "code", "notes", "src", "docs", "tests", "examples",
        "target", "node_modules", ".git",
    ];
    let ghost items = list@.map_values(|s: &str| s@);
    assert(items =~= common_strings());
    proof {
        lemma_common_strings_distinct();
    }
    let mut interner = StringInterner::new();
    assert(items.take(0) =~= Seq::<Seq<char>>::empty());
    let mut i: usize = 0;
    while i < list.len()
        invariant
            i <= list.len(),
            items == list@.map_values(|s: &str| s@),
            items.len() == 36,
            interner@ == intern_all(Seq::empty(), items.take(i as int)),
            interner.hits() + interner.misses() == i,
            interner.misses() == interner@.len(),
            interner@ == items.take(i as int),
            interner.hits() == 0,
            no_duplicates(items),
            no_duplicates(interner@),
            i > 0 ==> interner@.len() > 0 && interner@[0] == items[0],
            forall|k: int| 0 <= k < i ==> interner@.contains(#[trigger] items[k]),
        decreases list.len() - i,
    {
        proof {
            lemma_intern_all_len(Seq::empty(), items.take(i as int));
            assert(items.take(i + 1).drop_last() == items.take(i as int));
            assert(items.take(i + 1).last() == list@[i as int]@);
        }
        let ghost before = interner@;
        proof {
            if before.contains(items[i as int]) {
                let j = choose|j: int| 0 <= j < before.len() && before[j] == items[i as int];
                assert(items[j] == items[i as int]);
            }
        }
        interner.intern(list[i]);
        proof {
            assert(list@[i as int]@ == items[i as int]);
            assert forall|k: int| 0 <= k < i + 1 implies interner@.contains(#[trigger] items[k]) by {
                if k < i {
                    let j = choose|j: int| 0 <= j < before.len() && before[j] == items[k];
                    assert(interner@[j] == items[k]);
                } else {
                    let id = choose|j: int| 0 <= j < interner@.len() && interner@[j] == items[k];
                    assert(interner@.contains(items[k]));
                }
            }
            if i == 0 {
                assert(before.len() == 0);
                assert(interner@ == before.push(items[0]));
            }
        }
        i = i + 1;
    }
    assert(items.take(36) == items);
    interner
}

/// Interns `s` in the common interner.
pub fn intern_common(interner: &mut StringInterner, s: &str) -> (r: InternedString)
    requires
        old(interner)@.len() < u32::MAX,
        old(interner).hits() < u64::MAX,
        old(interner).misses() < u64::MAX,
    ensures
        final(interner)@ == intern_result(old(interner)@, s@),
        no_duplicates(final(interner)@),
        r.id_of() < final(interner)@.len(),
        final(interner)@[r.id_of() as int] == s@,
        r.text_of() == s@,
        old(interner)@.contains(s@) ==> final(interner).hits() == old(interner).hits() + 1
            && final(interner).misses() == old(interner).misses(),
        !old(interner)@.contains(s@) ==> final(interner).hits() == old(interner).hits()
            && final(interner).misses() == old(interner).misses() + 1
            && r.id_of() == old(interner)@.len(),
        final(interner).misses() == final(interner)@.len(),
{
    interner.intern(s)
}

/// Statistics of the common interner.
pub fn common_stats(interner: &StringInterner) -> (r: InternerStats)
    ensures
        r.hits == interner.hits(),
        r.misses == interner.misses(),
        r.misses == interner@.len(),
{
    interner.stats()
}


/// A table that holds every common string, without duplicates and with
/// `.md` first, holds at least as many strings as there are common ones;
/// interning anything keeps all of that, and interning a common string
/// changes nothing (it is a hit).
pub proof fn law_common_strings_stay(strings: Seq<Seq<char>>, s: Seq<char>)
    requires
        no_duplicates(strings),
        strings.len() > 0 && strings[0] == ".md"@,
        forall|k: int| 0 <= k < common_strings().len() ==> strings.contains(#[trigger] common_strings()[k]),
    ensures
        strings.len() >= common_strings().len(),
        no_duplicates(intern_result(strings, s)),
        intern_result(strings, s)[0] == ".md"@,
        forall|k: int| 0 <= k < common_strings().len() ==> intern_result(strings, s).contains(#[trigger] common_strings()[k]),
        common_strings().contains(s) ==> intern_result(strings, s) == strings,
{
    lemma_common_strings_distinct();
    let c = common_strings();
    assert(c.no_duplicates());
    c.unique_seq_to_set();
    assert(strings.no_duplicates());
    strings.unique_seq_to_set();
    assert(c.to_set().subset_of(strings.to_set())) by {
        assert forall|x: Seq<char>| c.to_set().contains(x) implies strings.to_set().contains(x) by {
            let k = choose|k: int| 0 <= k < c.len() && c[k] == x;
            assert(strings.contains(c[k]));
        }
    }
    vstd::set_lib::lemma_len_subset(c.to_set(), strings.to_set());
    law_intern_preserves(strings, s);
    let after = intern_result(strings, s);
    assert forall|k: int| 0 <= k < c.len() implies after.contains(#[trigger] c[k]) by {
        assert(strings.contains(c[k]));
        let j = choose|j: int| 0 <= j < strings.len() && strings[j] == c[k];
        assert(after[j] == c[k]);
    }
    if c.contains(s) {
        let k = choose|k: int| 0 <= k < c.len() && c[k] == s;
        assert(strings.contains(c[k]));
    }
}

} // verus!
