use npcterm::text::{
    char_vec, is_whitespace, lower_case, parse_decimal, push_decimal, push_utf8, split_str,
    split_whitespace, str_eq, strip_prefix, strip_suffix, to_ascii_lowercase, to_ascii_uppercase,
    trim_str,
};

#[test]
fn case_of_one_character() {
    for u in 0..0x300u32 {
        let c = char::from_u32(u).unwrap();
        assert_eq!(to_ascii_lowercase(c), c.to_ascii_lowercase());
        assert_eq!(to_ascii_uppercase(c), c.to_ascii_uppercase());
    }
}

#[test]
fn equality_of_text() {
    assert!(str_eq("", ""));
    assert!(str_eq("h\u{e9}", "h\u{e9}"));
    assert!(!str_eq("a", "b"));
    assert!(!str_eq("a", "ab"));
}

#[test]
fn characters_of_text() {
    assert_eq!(char_vec("a\u{20ac}"), vec!['a', '\u{20ac}']);
}

#[test]
fn splitting_matches_std() {
    for s in ["", "+", "a", "a+b", "+a++b+", "\u{e9}+\u{20ac}"] {
        assert_eq!(split_str(s, '+'), s.split('+').collect::<Vec<_>>());
    }
    for s in ["", " ", "a", " a  b\t\nc ", "a\u{a0}b\u{3000}\u{e9}"] {
        assert_eq!(split_whitespace(s), s.split_whitespace().collect::<Vec<_>>());
        assert_eq!(trim_str(s), s.trim());
    }
}

#[test]
fn white_space_matches_std() {
    for u in 0..=0x10ffffu32 {
        if let Some(c) = char::from_u32(u) {
            assert_eq!(is_whitespace(c), c.is_whitespace());
        }
    }
}

#[test]
fn affixes_match_std() {
    for (s, affix) in [("", ""), ("Name=x", "Name="), ("Nam", "Name="), ("\u{e9}a", "\u{e9}")] {
        assert_eq!(strip_prefix(s, affix), s.strip_prefix(affix));
        assert_eq!(strip_suffix(s, affix), s.strip_suffix(affix));
    }
    assert_eq!(strip_suffix("cmd.exe", ".exe"), Some("cmd"));
    assert_eq!(strip_suffix("exe", ".exe"), None);
}

#[test]
fn decimal_numbers_match_std() {
    for s in [
        "", "+", "-", "0", "-0", "+7", "++7", "007", "12", "255", "256", " 1", "1 ", "1a",
        "4294967295", "4294967296", "99999999999999999999999", "\u{661}",
    ] {
        assert_eq!(parse_decimal(s, u32::MAX), s.parse::<u32>().ok());
        assert_eq!(parse_decimal(s, 255), s.parse::<u8>().ok().map(u32::from));
    }
    for n in [0, 9, 10, 99, 100, 1234567890, u64::MAX] {
        let mut out = String::from("n=");
        push_decimal(&mut out, n);
        assert_eq!(out, format!("n={}", n));
    }
}

#[test]
fn utf8_matches_std() {
    for c in ['\0', '\u{7f}', '\u{80}', '\u{7ff}', '\u{800}', '\u{ffff}', '\u{10000}', '\u{10ffff}'] {
        let mut out = vec![1u8];
        push_utf8(&mut out, c);
        assert_eq!(out[1..].to_vec(), c.to_string().into_bytes());
    }
}

#[test]
fn lower_case_matches_std() {
    for s in [
        "", "Ctrl", "\u{c9}A", "A\u{3a3}", "a\u{3a3}", "\u{3a3}A", "\u{3a3}a", "B\u{3a3}.C", "b\u{3a3}.c",
        "\u{3a3}", "\u{130}I", "\u{212a}K", "\u{1e9e}S", "A'\u{3a3}' Z", "1\u{3a3}2",
    ] {
        assert_eq!(lower_case(s), s.to_lowercase());
    }
    // Every character between upper-case letters, and behind them.
    for u in 0..=0x10ffffu32 {
        if let Some(c) = char::from_u32(u) {
            let s = format!("A{}B{}", c, c);
            assert_eq!(lower_case(&s), s.to_lowercase());
        }
    }
}
