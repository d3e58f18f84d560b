use nekostream::text::{
    chars_of, decimal_text, parse_u32_text, replace_all_chars, same_text, string_from,
    to_ascii_lowercase, trim_chars,
};

#[test]
fn parses_plain_decimal() {
    assert_eq!(parse_u32_text("48000"), Some(48000));
    assert_eq!(parse_u32_text("007"), Some(7));
}

#[test]
fn parses_leading_plus_only() {
    assert_eq!(parse_u32_text("+44100"), Some(44100));
    assert_eq!(parse_u32_text("+"), None);
    assert_eq!(parse_u32_text("-1"), None);
    assert_eq!(parse_u32_text(""), None);
}

#[test]
fn rejects_what_std_rejects() {
    for s in ["4294967296", "12a", " 1", "1 ", "99999999999999999999", "٣"] {
        assert_eq!(parse_u32_text(s), s.parse::<u32>().ok(), "{s}");
    }
    assert_eq!(parse_u32_text("4294967295"), Some(u32::MAX));
}

#[test]
fn writes_decimal_like_to_string() {
    for n in [0u32, 7, 10, 48000, 1234567890, u32::MAX] {
        assert_eq!(decimal_text(n), n.to_string());
        assert_eq!(parse_u32_text(&decimal_text(n)), Some(n));
    }
}

fn trim_text(s: &str) -> String {
    string_from(&trim_chars(&chars_of(s)))
}

#[test]
fn trims_unicode_whitespace() {
    assert_eq!(trim_text("\u{3000} hi \n"), "hi");
    assert_eq!(trim_text(" \t\r\n"), "");
    assert_eq!(trim_text("a b"), "a b");
    let s = "\u{85}\u{a0}x\u{2029}";
    assert_eq!(trim_text(s), s.trim());
}

#[test]
fn lowercases_ascii_only() {
    let v = to_ascii_lowercase("Zh-HANT Ä");
    assert_eq!(string_from(&v), "zh-hant Ä");
}

#[test]
fn replaces_left_to_right_without_overlap() {
    let r = replace_all_chars(&chars_of("aaaa"), &chars_of("aa"), &chars_of("b"));
    assert_eq!(string_from(&r), "bb");
    let r = replace_all_chars(&chars_of("{x}{x}y"), &chars_of("{x}"), &chars_of("1"));
    assert_eq!(string_from(&r), "11y");
    let r = replace_all_chars(&chars_of("none"), &chars_of("{x}"), &chars_of("1"));
    assert_eq!(string_from(&r), "none");
}

#[test]
fn compares_text() {
    assert!(same_text("串流", "串流"));
    assert!(!same_text("abc", "abd"));
    assert!(!same_text("ab", "abc"));
}

#[test]
fn whitespace_matches_std() {
    for u in 0u32..0x11000 {
        if let Some(c) = char::from_u32(u) {
            assert_eq!(nekostream::text::is_white_space_char(c), c.is_whitespace(), "{u:x}");
        }
    }
}
