use doc_indexer::search_enhancement::{QueryComplexity, QueryIntent, SimpleQueryEnhancer};

fn strings(v: &[&str]) -> Vec<String> {
    v.iter().map(|s| s.to_string()).collect()
}

#[test]
fn query_context_from_wording() {
    let e = SimpleQueryEnhancer::new();
    let c = e.analyze_query_context("How do I fix this Error?");
    assert!(c.is_question && c.is_troubleshooting && !c.is_tutorial && !c.is_setup);
    let c = e.analyze_query_context("Install Guide");
    assert!(!c.is_question && c.is_tutorial && c.is_setup && !c.is_troubleshooting);
}

#[test]
fn terms_expand_by_lower_case_word() {
    let e = SimpleQueryEnhancer::new();
    assert_eq!(
        e.expand_query_terms("API search"),
        strings(&[
            "application programming interface",
            "endpoint",
            "rest",
            "restful",
            "graphql",
            "web service",
            "http",
            "find",
            "query",
            "lookup",
            "retrieve",
            "discover",
        ])
    );
    assert_eq!(e.expand_with_patterns("Best Practices for DB"), strings(&["recommendations", "guidelines", "standards", "conventions"]));
    assert_eq!(
        e.expand_with_context("how to setup", &e.analyze_query_context("how to setup")),
        strings(&[
            "tutorial",
            "guide",
            "example",
            "documentation",
            "instructions",
            "installation",
            "configure",
            "initialize",
            "prepare",
            "documentation",
            "reference",
            "example",
            "step by step",
            "installation",
            "getting started",
        ])
    );
}

#[test]
fn enhancement_keeps_eight_sorted_distinct_terms() {
    let e = SimpleQueryEnhancer::new();
    let q = e.enhance("api");
    assert_eq!(q.original, "api");
    assert_eq!(
        q.technical_terms,
        strings(&["application programming interface", "endpoint", "graphql", "http", "rest", "restful", "web service"])
    );
    assert_eq!(q.enhanced, "api application programming interface endpoint graphql http rest restful web service");
    assert_eq!(q.expansion_strategy, "context_aware_multi_factor(7)");
    assert!(q.synonyms_added.is_empty());

    let q = e.enhance("search error");
    assert_eq!(q.technical_terms.len(), 8);
    let mut sorted = q.technical_terms.clone();
    sorted.sort();
    sorted.dedup();
    assert_eq!(sorted, q.technical_terms);
    assert_eq!(q.expansion_strategy, "context_aware_multi_factor(8)");
}

#[test]
fn analysis_of_intent_and_complexity() {
    let e = SimpleQueryEnhancer::new();
    let a = e.analyze("config api");
    assert_eq!(a.intent, QueryIntent::Reference);
    assert_eq!(a.complexity, QueryComplexity::Simple);
    assert_eq!(a.technical_terms, strings(&["config", "api"]));
    let a = e.analyze("what is the db layout here now");
    assert_eq!(a.intent, QueryIntent::Documentation);
    assert_eq!(a.complexity, QueryComplexity::Complex);
    assert_eq!(a.entities, strings(&["db"]));
    assert_eq!(e.analyze("error in build").intent, QueryIntent::Troubleshooting);
}
