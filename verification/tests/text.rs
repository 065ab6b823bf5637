use llm_sdk::text::same_text;

#[test]
fn same_text_compares_characters() {
    assert!(same_text("", ""));
    assert!(same_text("vivid", "vivid"));
    assert!(!same_text("vivid", "Vivid"));
    assert!(!same_text("vivid", "vivi"));
    assert!(!same_text("", "a"));
    assert!(same_text("1024*1792", "1024*1792"));
    assert!(!same_text("1024*1792", "1024x1792"));
    assert!(same_text("caf\u{e9}", "caf\u{e9}"));
    assert!(!same_text("caf\u{e9}", "cafe"));
}
