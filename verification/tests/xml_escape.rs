use gamlastan::markup::{escape_attr, escape_text};

#[test]
fn test_escape_attr() {
    assert_eq!(escape_attr(r#"a"b&c<d"#), "a&quot;b&amp;c&lt;d");
}

#[test]
fn test_escape_text() {
    assert_eq!(escape_text("a&b<c>d"), "a&amp;b&lt;c&gt;d");
    assert_eq!(escape_text(r#""x""#), r#""x""#);
}
