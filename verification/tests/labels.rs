use vue_toolchain::labels::{label_for_completion, CompletionKind};
use vue_toolchain::paths::{join_path, sanitize_windows_path, Os};

#[test]
fn keyword_maps_to_keyword_highlight() {
    let label = label_for_completion(Some(CompletionKind::Keyword), "await".to_string(), None)
        .unwrap();
    assert_eq!(label.spans.len(), 1);
    assert_eq!(label.spans[0].text, "await");
    assert_eq!(label.spans[0].highlight_name.as_deref(), Some("keyword"));
}

#[test]
fn property_maps_to_tag_highlight() {
    let label = label_for_completion(Some(CompletionKind::Property), "title".to_string(), None)
        .unwrap();
    assert_eq!(label.spans[0].highlight_name.as_deref(), Some("tag"));
}

#[test]
fn full_mapping_table() {
    let cases = [
        (CompletionKind::Class, "type"),
        (CompletionKind::Interface, "type"),
        (CompletionKind::Constructor, "type"),
        (CompletionKind::Constant, "constant"),
        (CompletionKind::Function, "function"),
        (CompletionKind::Method, "function"),
        (CompletionKind::Property, "tag"),
        (CompletionKind::Field, "tag"),
        (CompletionKind::Variable, "type"),
        (CompletionKind::Keyword, "keyword"),
        (CompletionKind::Value, "tag"),
    ];
    for (kind, highlight) in cases {
        let label = label_for_completion(Some(kind), "x".to_string(), None).unwrap();
        assert_eq!(label.spans[0].highlight_name.as_deref(), Some(highlight));
    }
}

#[test]
fn unrecognized_category_produces_no_label() {
    assert!(label_for_completion(Some(CompletionKind::Snippet), "x".to_string(), None).is_none());
    assert!(label_for_completion(Some(CompletionKind::Text), "x".to_string(), None).is_none());
    assert!(label_for_completion(Some(CompletionKind::Module), "x".to_string(), None).is_none());
}

#[test]
fn missing_category_produces_no_label() {
    assert!(label_for_completion(None, "x".to_string(), None).is_none());
}

#[test]
fn detail_adds_two_unhighlighted_spans() {
    let label = label_for_completion(
        Some(CompletionKind::Function),
        "setup".to_string(),
        Some("(props) => void".to_string()),
    )
    .unwrap();
    assert_eq!(label.spans.len(), 3);
    assert_eq!(label.spans[0].text, "setup");
    assert_eq!(label.spans[0].highlight_name.as_deref(), Some("function"));
    assert_eq!(label.spans[1].text, " ");
    assert_eq!(label.spans[1].highlight_name, None);
    assert_eq!(label.spans[2].text, "(props) => void");
    assert_eq!(label.spans[2].highlight_name, None);
}

#[test]
fn filter_range_covers_the_name() {
    let label = label_for_completion(
        Some(CompletionKind::Variable),
        "count".to_string(),
        Some("number".to_string()),
    )
    .unwrap();
    assert_eq!(label.filter_range_start, 0);
    assert_eq!(label.filter_range_end, 5);
    assert_eq!(label.code, "");
}

#[test]
fn windows_paths_lose_their_leading_slashes() {
    assert_eq!(
        sanitize_windows_path(Os::Windows, "/C:/Users/dev".to_string()),
        "C:/Users/dev"
    );
    assert_eq!(
        sanitize_windows_path(Os::Windows, "//C:/x".to_string()),
        "C:/x"
    );
    assert_eq!(sanitize_windows_path(Os::Windows, "C:/x".to_string()), "C:/x");
}

#[test]
fn unix_paths_are_untouched() {
    assert_eq!(sanitize_windows_path(Os::Linux, "/home/dev".to_string()), "/home/dev");
    assert_eq!(sanitize_windows_path(Os::Mac, "/Users/dev".to_string()), "/Users/dev");
}

#[test]
fn join_path_inserts_a_single_separator() {
    assert_eq!(join_path("/w", "node_modules/typescript/lib"), "/w/node_modules/typescript/lib");
    assert_eq!(join_path("/w/", "a.js"), "/w/a.js");
}
