use forza_rich_presence::text::{
    chars_of, is_white_space_char, push_decimal, push_decimal_i32, starts_with_chars,
    string_from_chars, trim_chars,
};

fn trimmed(s: &str) -> String {
    let chars = chars_of(s);
    string_from_chars(&trim_chars(&chars))
}

#[test]
fn trim_matches_str_trim() {
    for s in [
        "",
        "   ",
        "  a b  ",
        "\u{3000}Playing\u{a0}\u{2028}",
        "\t\n x \r",
        "\u{200B}zero width stays\u{200B}",
        "\u{85}next line\u{1680}",
    ] {
        assert_eq!(trimmed(s), s.trim(), "input {:?}", s);
    }
}

#[test]
fn white_space_matches_char_is_whitespace() {
    for u in 0u32..0x3100 {
        if let Some(c) = char::from_u32(u) {
            assert_eq!(is_white_space_char(c), c.is_whitespace(), "U+{:04X}", u);
        }
    }
}

#[test]
fn decimal_formatting_matches_display() {
    for v in [0i32, 7, 10, 99, 100, -1, -10, 123456, i32::MAX, i32::MIN] {
        let mut s = String::from("x=");
        push_decimal_i32(&mut s, v);
        assert_eq!(s, format!("x={}", v));
    }
    let mut s = String::new();
    push_decimal(&mut s, u64::MAX);
    assert_eq!(s, u64::MAX.to_string());
}

#[test]
fn starts_with_and_round_trip() {
    let a = chars_of("network error: 503");
    assert!(starts_with_chars(&a, &chars_of("network error")));
    assert!(starts_with_chars(&a, &chars_of("")));
    assert!(!starts_with_chars(&a, &chars_of("network errors here and more")));
    assert!(!starts_with_chars(&chars_of("net"), &chars_of("network")));
    assert_eq!(string_from_chars(&chars_of("ÄöÜ ✓")), "ÄöÜ ✓");
}

#[test]
fn trimming_twice_changes_nothing() {
    for s in ["", "  x ", "\u{3000}a\u{3000}b\u{3000}", "\n\n"] {
        let once = trimmed(s);
        assert_eq!(trimmed(&once), once);
    }
}
