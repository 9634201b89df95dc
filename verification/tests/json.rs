use url_normalizer::json::{append_decimal, json_string};

#[test]
fn decimal_text() {
    for (n, expected) in [(0u64, "0"), (7, "7"), (10, "10"), (1234567890, "1234567890"), (u64::MAX, "18446744073709551615")] {
        let mut out = String::from("n=");
        append_decimal(&mut out, n);
        assert_eq!(out, format!("n={}", expected));
    }
}

#[test]
fn json_string_escapes() {
    assert_eq!(json_string("abc"), "\"abc\"");
    assert_eq!(json_string("a\"b\\c"), r#""a\"b\\c""#);
    assert_eq!(json_string("\u{8}\t\n\u{c}\r"), r#""\b\t\n\f\r""#);
    assert_eq!(json_string("\u{1}\u{1f}\u{7f}é"), "\"\\u0001\\u001f\u{7f}é\"");
    assert_eq!(json_string(""), "\"\"");
}
