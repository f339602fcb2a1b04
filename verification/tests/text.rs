use animus_subject_zendesk::text::{
    blank, parse_u64, str_eq, str_less, strip_prefix, trim, trim_end_slashes, u64_text,
    white_space,
};

#[test]
fn white_space_is_unicode_white_space() {
    for code in 0..=0x10ffff {
        if let Some(c) = char::from_u32(code) {
            assert_eq!(white_space(c), c.is_whitespace(), "{:?}", c);
        }
    }
}

#[test]
fn trims_like_str() {
    for s in ["", " ", "a", "  a b\t", "\u{a0}x\u{2009}", "\n\n", "é ", "\u{200b}a\u{200b}"] {
        assert_eq!(trim(s), s.trim());
        assert_eq!(blank(s), s.trim().is_empty());
    }
}

#[test]
fn trims_end_slashes() {
    for s in ["", "/", "a", "a/", "/a//", "é/", "a/b"] {
        assert_eq!(trim_end_slashes(s), s.trim_end_matches('/'));
    }
}

#[test]
fn strips_prefixes() {
    assert_eq!(strip_prefix("zendesk:1", "zendesk:"), Some("1"));
    assert_eq!(strip_prefix("zendesk:", "zendesk:"), Some(""));
    assert_eq!(strip_prefix("zendesk", "zendesk:"), None);
    assert_eq!(strip_prefix("Zendesk:1", "zendesk:"), None);
    assert_eq!(strip_prefix("éa", "é"), Some("a"));
}

#[test]
fn reads_numbers_like_str() {
    for s in [
        "", "0", "00", "+1", "++1", "-1", "-0", "1 ", "12345678901234567890", "18446744073709551615",
        "18446744073709551616", "99999999999999999999999", "1_000", "١", "+", "1.0",
    ] {
        assert_eq!(parse_u64(s), s.parse::<u64>().ok(), "{s}");
    }
}

#[test]
fn writes_numbers_like_display() {
    for n in [0, 7, 10, 99, 100, 1234567890, u64::MAX] {
        assert_eq!(u64_text(n), n.to_string());
        assert_eq!(parse_u64(&u64_text(n)), Some(n));
    }
}

#[test]
fn orders_like_str() {
    let all = ["", "a", "ab", "b", "B", "é", "z", "\u{ffff}", "\u{10000}", "aé", "az"];
    for a in all {
        for b in all {
            assert_eq!(str_less(a, b), a < b, "{a} {b}");
            assert_eq!(str_eq(a, b), a == b);
        }
    }
}
