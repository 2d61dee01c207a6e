use auth_proxy::text::{join_texts, decimal, same_text, trim_end_slashes, trimmed_len};

#[test]
fn trailing_slashes_are_removed() {
    assert_eq!(trim_end_slashes("api/v1///"), "api/v1");
    assert_eq!(trimmed_len("api/v1///"), 6);
}

#[test]
fn inner_and_leading_slashes_stay() {
    assert_eq!(trim_end_slashes("/a//b/"), "/a//b");
    assert_eq!(trim_end_slashes("a/b"), "a/b");
}

#[test]
fn only_slashes_trim_to_nothing() {
    assert_eq!(trim_end_slashes("////"), "");
    assert_eq!(trim_end_slashes(""), "");
    assert_eq!(trimmed_len("////"), 0);
}

#[test]
fn trimming_counts_characters_not_bytes() {
    assert_eq!(trim_end_slashes("caf\u{e9}/\u{4e2d}//"), "caf\u{e9}/\u{4e2d}");
    assert_eq!(trimmed_len("caf\u{e9}/\u{4e2d}//"), 6);
}

#[test]
fn decimal_numerals() {
    assert_eq!(decimal(0), "0");
    assert_eq!(decimal(7), "7");
    assert_eq!(decimal(10), "10");
    assert_eq!(decimal(3000), "3000");
    assert_eq!(decimal(65535), "65535");
    assert_eq!(decimal(u64::MAX), "18446744073709551615");
}

#[test]
fn texts_compare_by_their_characters() {
    assert!(same_text("port", "port"));
    assert!(!same_text("port", "ports"));
    assert!(!same_text("port", "pork"));
    assert!(same_text("", ""));
    assert!(!same_text("\u{e9}", "e"));
}

#[test]
fn join_keeps_the_order() {
    assert_eq!(join_texts("ab", "cd"), "abcd");
    assert_eq!(join_texts("", "x"), "x");
}
