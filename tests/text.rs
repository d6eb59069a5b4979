use icebook::text::{less_than, same_text};

#[test]
fn lexicographic_order() {
    assert!(less_than("abc", "abd"));
    assert!(less_than("ab", "abc"));
    assert!(less_than("", "a"));
    assert!(less_than("Z", "a"));
    assert!(!less_than("abc", "abc"));
    assert!(!less_than("b", "abc"));
    assert!(less_than("é", "中"));
}

#[test]
fn text_equality() {
    assert!(same_text("", ""));
    assert!(same_text("héllo", "héllo"));
    assert!(!same_text("hello", "hellO"));
    assert!(!same_text("hell", "hello"));
}
