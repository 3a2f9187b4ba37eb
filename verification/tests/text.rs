use starforge::text::{is_blank, is_whitespace_char, normalize_url_str, same_text, strip_trailing_slashes_str, trim_str};

#[test]
fn trim_matches_std_trim() {
    for sample in ["", "   ", " a ", "\u{3000}x\u{2028}", "\t\nab c\r", "é ", "no-trim", "\u{85}\u{a0}"] {
        assert_eq!(trim_str(sample), sample.trim());
    }
}

#[test]
fn whitespace_matches_std() {
    for c in ['\t', '\n', '\u{b}', '\u{c}', '\r', ' ', '\u{85}', '\u{a0}', '\u{1680}', '\u{2000}', '\u{200a}', '\u{2028}', '\u{2029}', '\u{202f}', '\u{205f}', '\u{3000}', 'a', '\u{200b}', '\u{180e}', '\u{feff}'] {
        assert_eq!(is_whitespace_char(c), c.is_whitespace(), "{:?}", c);
    }
}

#[test]
fn trailing_slashes_are_stripped() {
    assert_eq!(strip_trailing_slashes_str("https://a.org///"), "https://a.org");
    assert_eq!(strip_trailing_slashes_str("///"), "");
    assert_eq!(strip_trailing_slashes_str("/a/b"), "/a/b");
}

#[test]
fn normalized_url_never_ends_with_a_slash() {
    assert_eq!(normalize_url_str("  https://a.org//  "), "https://a.org");
    assert_eq!(normalize_url_str("https://a.org/path/"), "https://a.org/path");
    // Trimming happens before the slashes are stripped, as in `trim().trim_end_matches('/')`.
    assert_eq!(normalize_url_str("a /"), "a ");
    for sample in ["/", " / / ", "x//", "", "http://h/ /"] {
        let n = normalize_url_str(sample);
        assert_eq!(n, sample.trim().trim_end_matches('/'));
        assert!(!n.ends_with('/'));
    }
}

#[test]
fn blank_and_equal_texts() {
    assert!(is_blank(""));
    assert!(is_blank(" \t"));
    assert!(!is_blank(" x"));
    assert!(same_text("mainnet", "mainnet"));
    assert!(!same_text("mainnet", "mainnet "));
    assert!(!same_text("mainnet", "testnet"));
}
