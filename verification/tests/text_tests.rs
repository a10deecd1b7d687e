use xero_cli::text::{contains_text, decimal_text, split_text, str_eq, take_chars, trim_text};

#[test]
fn trim_matches_std() {
    for s in ["  a b  ", "\t\nx\r\n", "", "   ", "\u{3000}wide\u{a0}", "no-trim", " \u{85}mixed \u{2028}"] {
        assert_eq!(trim_text(s), s.trim());
    }
}

#[test]
fn split_matches_std() {
    for s in ["a,b,c", "", ",", "a,", ",a", "a,,b", "no commas"] {
        let expected: Vec<String> = s.split(',').map(|p| p.to_string()).collect();
        assert_eq!(split_text(s, ','), expected);
    }
    assert_eq!(split_text("a.b", '.'), vec!["a".to_string(), "b".to_string()]);
}

#[test]
fn decimal_matches_std() {
    for n in [0u64, 7, 10, 99, 100, 404, 65535, 1234567890, u64::MAX] {
        assert_eq!(decimal_text(n), n.to_string());
    }
}

#[test]
fn take_and_compare() {
    assert_eq!(take_chars("0123456789", 8), "01234567");
    assert_eq!(take_chars("abc", 8), "abc");
    assert_eq!(take_chars("ééééééééé", 8), "éééééééé");
    assert!(str_eq("read-only", "read-only"));
    assert!(!str_eq("read-only", "read-onl"));
    let v = vec!["a".to_string(), "bc".to_string()];
    assert!(contains_text(&v, "bc"));
    assert!(!contains_text(&v, "b"));
}
