use dunno::text::trim_str;

#[test]
fn todo_content_validation_accepts_valid() {
    let content = "Buy milk";
    assert!(!trim_str(content).is_empty());
    assert!(content.len() <= 1000);
}

#[test]
fn todo_content_validation_rejects_empty() {
    let content = "";
    assert!(trim_str(content).is_empty());
}

#[test]
fn todo_content_validation_rejects_whitespace() {
    let content = "   ";
    assert!(trim_str(content).is_empty());
}

#[test]
fn trim_matches_std() {
    for s in ["", " a ", "\u{3000}x y\u{85}", "\t\n", "abc", " \u{a0}b"] {
        assert_eq!(trim_str(s), s.trim());
    }
}
