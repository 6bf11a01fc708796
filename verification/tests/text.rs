use leptos_controls::text::quote;

#[test]
fn quote_plain_text() {
    assert_eq!(quote("Account"), "\"Account\"");
    assert_eq!(quote(""), "\"\"");
}

#[test]
fn quote_escapes() {
    assert_eq!(quote("a\"b"), "\"a\\\"b\"");
    assert_eq!(quote("a\\b"), "\"a\\\\b\"");
    assert_eq!(quote("a\nb\rc\td\0"), "\"a\\nb\\rc\\td\\0\"");
}

#[test]
fn quote_keeps_other_characters() {
    assert_eq!(quote("\u{8d26}\u{53f7}'x'"), "\"\u{8d26}\u{53f7}'x'\"");
}
