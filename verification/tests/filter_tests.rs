use esticli::filter::FilterState;
use esticli::models::IndexRate;

fn named(name: &str) -> IndexRate {
    IndexRate {
        name: name.to_string(),
        doc_count: 0,
        rate_milli: 0,
        size_bytes: 0,
        health: "green".to_string(),
    }
}

fn with_docs(doc_count: u64) -> IndexRate {
    IndexRate {
        name: "idx".to_string(),
        doc_count,
        rate_milli: 0,
        size_bytes: 0,
        health: "green".to_string(),
    }
}

#[test]
fn test_filter_compilation() {
    let mut filter = FilterState::new();

    // Empty filter matches everything.
    filter.recompile();
    assert!(filter.error.is_none());
    assert!(filter.is_match(&named("any-index")));

    // Valid filter: select by exact name.
    filter.set_text("select(.name == \"my-test-index\")".to_string());
    filter.recompile();
    if let Some(e) = &filter.error {
        println!("Error compiling filter: {}", e);
    }
    assert!(filter.error.is_none());
    assert!(filter.is_match(&named("my-test-index")));
    assert!(!filter.is_match(&named("other-index")));

    // Invalid query syntax.
    filter.set_text("invalid query syntax {{".to_string());
    filter.recompile();
    assert!(filter.error.is_some());
}

#[test]
fn test_filter_clear() {
    let mut filter = FilterState::new();
    filter.set_text("select(.name == \"test\")".to_string());
    filter.recompile();
    filter.enter();

    assert!(filter.active);
    assert!(!filter.text().is_empty());

    filter.clear();
    assert!(!filter.active);
    assert!(filter.text().is_empty());
}

#[test]
fn test_filter_numeric_comparison() {
    let mut filter_state = FilterState::new();
    filter_state.set_text("select(.doc_count > 1000)".to_string());
    filter_state.recompile();

    assert!(filter_state.is_match(&with_docs(2000)));
    assert!(!filter_state.is_match(&with_docs(500)));
}

#[test]
fn test_filter_string_contains() {
    let mut filter_state = FilterState::new();
    filter_state.set_text("select(.name | contains(\"test\"))".to_string());
    filter_state.recompile();

    assert!(filter_state.is_match(&named("my-test-index")));
    assert!(!filter_state.is_match(&named("production-index")));
}

#[test]
fn test_filter_performance() {
    // Multiple matches reuse the compiled filter.
    let mut filter_state = FilterState::new();
    filter_state.set_text("select(.doc_count > 100)".to_string());
    filter_state.recompile();

    for i in 0..1000 {
        let _ = filter_state.is_match(&with_docs(i));
    }
}

#[test]
fn test_failed_compile_matches_everything() {
    let mut filter_state = FilterState::new();
    filter_state.set_text("select(.doc_count > 1000)".to_string());
    filter_state.recompile();
    assert!(!filter_state.is_match(&with_docs(10)));

    // A failed recompilation drops the predicate: match everything again.
    filter_state.set_text("{{ nonsense".to_string());
    filter_state.recompile();
    assert!(filter_state.error.is_some());
    assert!(filter_state.is_match(&with_docs(10)));
    assert!(filter_state.is_match(&named("anything")));
}

#[test]
fn test_clock_and_environment_filters_rejected() {
    let texts = [
        "now",
        "env",
        "halt",
        "halt_error",
        "localtime",
        "strflocaltime(\"%Y\")",
    ];
    for text in texts {
        let mut f = FilterState::new();
        f.set_text(text.to_string());
        f.recompile();
        assert!(f.error.is_some(), "{} should fail to compile", text);
        assert!(f.is_match(&named("x")));
    }
    // The deterministic remainder of the table still works.
    let mut f = FilterState::new();
    f.set_text("select(.doc_count + 1 == 2)".to_string());
    f.recompile();
    assert!(f.error.is_none());
    assert!(f.is_match(&with_docs(1)));
    assert!(!f.is_match(&with_docs(5)));
}
