use rabbitnut::text::{
    chars_of, has_infix, has_prefix, is_space_char, join_from, lowered_chars_of, matches_at,
    parse_u64_of, push_decimal, push_signed_decimal, same_text, split_whitespace, string_of,
    trim_quotes_of,
};

fn words(text: &str) -> Vec<String> {
    split_whitespace(&chars_of(text)).iter().map(string_of).collect()
}

#[test]
fn chars_round_trip() {
    for text in ["", "a", "VAR ups x \"1\"", "gr\u{fc}n \u{1f50b}"] {
        assert_eq!(string_of(&chars_of(text)), text);
        assert_eq!(chars_of(text), text.chars().collect::<Vec<char>>());
    }
}

#[test]
fn white_space_is_what_std_calls_white_space() {
    let mut code: u32 = 0;
    while code <= 0x10ffff {
        if let Some(c) = char::from_u32(code) {
            assert_eq!(is_space_char(c), c.is_whitespace(), "U+{:04X}", code);
        }
        code += 1;
    }
}

#[test]
fn parse_u64_agrees_with_std() {
    for text in [
        "0", "7", "+5", "007", "18446744073709551615", "18446744073709551616",
        "18446744073709551620", "", "+", "-1", "-0", "1 ", " 1", "12a", "++1", "1+",
        "99999999999999999999999", "1800", "\u{663}",
    ] {
        assert_eq!(parse_u64_of(&chars_of(text)), text.parse::<u64>().ok(), "{:?}", text);
    }
}

#[test]
fn parse_u64_exact_values() {
    assert_eq!(parse_u64_of(&chars_of("1800")), Some(1800));
    assert_eq!(parse_u64_of(&chars_of("+42")), Some(42));
    assert_eq!(parse_u64_of(&chars_of("18446744073709551615")), Some(u64::MAX));
    assert_eq!(parse_u64_of(&chars_of("18446744073709551616")), None);
    assert_eq!(parse_u64_of(&chars_of("")), None);
}

#[test]
fn decimal_agrees_with_std() {
    for n in [0u64, 1, 9, 10, 11, 99, 100, 3493, 8089, 1234567890, u64::MAX] {
        let mut out = String::from("x");
        push_decimal(&mut out, n);
        assert_eq!(out, format!("x{}", n));
    }
}

#[test]
fn signed_decimal_agrees_with_std() {
    for n in [0i64, 1, -1, 10, -10, 1700000000, -1700000000, i64::MAX, i64::MIN, i64::MIN + 1] {
        let mut out = String::new();
        push_signed_decimal(&mut out, n);
        assert_eq!(out, format!("{}", n));
    }
}

#[test]
fn split_whitespace_agrees_with_std() {
    for text in [
        "", " ", "   ", "a", " a", "a ", " a b  c ", "VAR ups battery.charge \"100\"",
        "a\tb\nc\u{a0}d\u{3000}e", "\r\nEND LIST VAR ups\r\n", "one\u{2003}two\u{85}three",
    ] {
        let theirs: Vec<String> = text.split_whitespace().map(String::from).collect();
        assert_eq!(words(text), theirs, "{:?}", text);
    }
}

#[test]
fn split_whitespace_exact() {
    assert_eq!(words("  /sbin/shutdown   -h +0 "), vec!["/sbin/shutdown", "-h", "+0"]);
    assert_eq!(words(" \t "), Vec::<String>::new());
}

#[test]
fn join_from_joins_with_single_spaces() {
    let parts = split_whitespace(&chars_of("VAR ups ups.status OL   CHRG  LB"));
    assert_eq!(string_of(&join_from(&parts, 3)), "OL CHRG LB");
    assert_eq!(string_of(&join_from(&parts, 5)), "LB");
    assert_eq!(string_of(&join_from(&parts, 6)), "");
    assert_eq!(string_of(&join_from(&parts, 0)), "VAR ups ups.status OL CHRG LB");
}

#[test]
fn trim_quotes_agrees_with_std() {
    for text in [
        "", "\"", "\"\"", "\"\"\"", "a", "\"a\"", "\"\"a\"\"", "\"a", "a\"", "a\"b", "\"a\"b\"",
        "\"OL CHRG\"", " \"a\" ",
    ] {
        assert_eq!(
            string_of(&trim_quotes_of(&chars_of(text))),
            text.trim_matches('"'),
            "{:?}",
            text
        );
    }
}

#[test]
fn occurrences_agree_with_std() {
    let texts = ["", "E", "ERR", "XERR", "ERRX", "ER R", "ERERR", "err", "VAR", "VARIANT", " VAR"];
    let patterns = ["", "ERR", "VAR", "R", "ERRX"];
    for text in texts {
        for pattern in patterns {
            let t = chars_of(text);
            let p = chars_of(pattern);
            assert_eq!(has_infix(&t, &p), text.contains(pattern), "{:?} in {:?}", pattern, text);
            assert_eq!(has_prefix(&t, &p), text.starts_with(pattern), "{:?} at {:?}", pattern, text);
        }
    }
}

#[test]
fn matches_at_looks_at_the_index() {
    let t = chars_of("abcabc");
    let p = chars_of("bc");
    assert!(matches_at(&t, &p, 1));
    assert!(matches_at(&t, &p, 4));
    assert!(!matches_at(&t, &p, 0));
    assert!(!matches_at(&t, &p, 5));
    assert!(!matches_at(&t, &p, 6));
    assert!(!matches_at(&t, &p, usize::MAX));
    assert!(matches_at(&t, &chars_of(""), 6));
    assert!(!matches_at(&t, &chars_of(""), 7));
}

#[test]
fn same_text_compares_contents() {
    assert!(same_text(&chars_of("VAR"), &chars_of("VAR")));
    assert!(!same_text(&chars_of("VAR"), &chars_of("VAr")));
    assert!(!same_text(&chars_of("VAR"), &chars_of("VARS")));
    assert!(same_text(&chars_of(""), &chars_of("")));
}

#[test]
fn lowered_folds_ascii_letters_only() {
    assert_eq!(string_of(&lowered_chars_of("WaRnInG")), "warning");
    assert_eq!(string_of(&lowered_chars_of("AZ[`az@")), "az[`az@");
    assert_eq!(string_of(&lowered_chars_of("\u{c4}B")), "\u{c4}b");
}
