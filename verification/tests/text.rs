use ephemtext::text::same_text;

#[test]
fn equal_texts_are_the_same() {
    assert!(same_text("", ""));
    assert!(same_text("quit", "quit"));
    assert!(same_text("日本語", "日本語"));
}

#[test]
fn different_texts_are_not_the_same() {
    assert!(!same_text("quit", "Quit"));
    assert!(!same_text("quit", "quit "));
    assert!(!same_text("quit", "qui"));
    assert!(!same_text("", "a"));
    assert!(!same_text("a", ""));
    assert!(!same_text("abc", "abd"));
}
