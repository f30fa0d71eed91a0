use rfcbit::text::{
    contains_char, ends_with_slice, find_slice, from_chars, is_whitespace_char,
    matches_at_index, push_decimal, same_text, split_first, starts_with_slice,
    strip_prefix_all_slice, strip_suffix_all_slice, to_chars, trim_slice,
};

fn chars(s: &str) -> Vec<char> {
    s.chars().collect()
}

#[test]
fn chars_round_trip_counts_characters_not_bytes() {
    let v = to_chars("héllo ✓");
    assert_eq!(v.len(), 7);
    assert_eq!(v, chars("héllo ✓"));
    assert_eq!(from_chars(&v), "héllo ✓");
    assert_eq!(to_chars(""), Vec::<char>::new());
    assert_eq!(from_chars(&[]), "");
}

#[test]
fn whitespace_is_what_std_calls_whitespace() {
    let mut n: u32 = 0;
    while n <= 0x3100 {
        if let Some(c) = char::from_u32(n) {
            assert_eq!(is_whitespace_char(c), c.is_whitespace(), "U+{:04X}", n);
        }
        n += 1;
    }
    assert!(!is_whitespace_char('\u{FEFF}'));
    assert!(!is_whitespace_char('\u{200B}'));
}

#[test]
fn trim_takes_whitespace_from_both_ends_only() {
    assert_eq!(trim_slice(&chars("  a b \t\r\n")), &chars("a b")[..]);
    assert_eq!(trim_slice(&chars("\u{00A0}x\u{3000}")), &chars("x")[..]);
    assert_eq!(trim_slice(&chars(" \n\t ")), &chars("")[..]);
    assert_eq!(trim_slice(&chars("")), &chars("")[..]);
    assert_eq!(trim_slice(&chars("abc")), &chars("abc")[..]);
}

#[test]
fn trim_agrees_with_std() {
    for s in ["", " ", "a", " a", "a ", "\t a \u{2003}b\u{2028}", "\u{0085}\u{1680}zz\u{205F}"] {
        assert_eq!(from_chars(trim_slice(&chars(s))), s.trim());
    }
}

#[test]
fn find_gives_the_first_occurrence() {
    assert_eq!(find_slice(&chars("abcabc"), &chars("bc")), Some(1));
    assert_eq!(find_slice(&chars("aaa"), &chars("aa")), Some(0));
    assert_eq!(find_slice(&chars("abc"), &chars("abcd")), None);
    assert_eq!(find_slice(&chars("abc"), &chars("c")), Some(2));
    assert_eq!(find_slice(&chars("abc"), &chars("x")), None);
    assert_eq!(find_slice(&chars("abc"), &chars("")), Some(0));
    assert_eq!(find_slice(&chars(""), &chars("")), Some(0));
    assert_eq!(find_slice(&chars(""), &chars("a")), None);
}

#[test]
fn matches_at_index_checks_bounds() {
    let hay = chars("hello");
    assert!(matches_at_index(&hay, &chars("llo"), 2));
    assert!(!matches_at_index(&hay, &chars("llo"), 3));
    assert!(!matches_at_index(&hay, &chars("lo"), 4));
    assert!(matches_at_index(&hay, &chars(""), 5));
    assert!(!matches_at_index(&hay, &chars(""), 6));
    assert!(!matches_at_index(&hay, &chars("h"), usize::MAX));
}

#[test]
fn prefixes_suffixes_and_characters() {
    let s = chars("[Page 3]");
    assert!(starts_with_slice(&s, &chars("[Page ")));
    assert!(!starts_with_slice(&s, &chars("Page")));
    assert!(starts_with_slice(&s, &chars("")));
    assert!(ends_with_slice(&s, &chars("3]")));
    assert!(!ends_with_slice(&s, &chars("[Page 3]x")));
    assert!(contains_char(&s, 'g'));
    assert!(!contains_char(&s, '\x0C'));
    assert!(!contains_char(&[], 'a'));
}

#[test]
fn split_first_cuts_at_the_first_delimiter() {
    let s = chars("a--b--c");
    let d = chars("--");
    let (before, after) = split_first(&s, &d).unwrap();
    assert_eq!(before, &chars("a")[..]);
    assert_eq!(after, &chars("b--c")[..]);
    assert_eq!(split_first(&chars("abc"), &d), None);
    let only = chars("--");
    let (before, after) = split_first(&only, &d).unwrap();
    assert!(before.is_empty() && after.is_empty());
}

#[test]
fn strip_all_takes_every_repetition() {
    let fence = chars("```");
    assert_eq!(strip_prefix_all_slice(&chars("``````x```"), &fence), &chars("x```")[..]);
    assert_eq!(strip_suffix_all_slice(&chars("x``````"), &fence), &chars("x")[..]);
    assert_eq!(strip_prefix_all_slice(&chars("``x"), &fence), &chars("``x")[..]);
    assert_eq!(strip_prefix_all_slice(&chars("abc"), &chars("")), &chars("abc")[..]);
    assert_eq!(strip_suffix_all_slice(&chars("```"), &fence), &chars("")[..]);
}

#[test]
fn same_text_compares_contents() {
    assert!(same_text("rust", "rust"));
    assert!(!same_text("rust", "Rust"));
    assert!(!same_text("rust", "rus"));
    assert!(!same_text("go", "goo"));
    assert!(same_text("", ""));
}

#[test]
fn decimal_has_no_leading_zeros() {
    for (n, text) in [
        (0u32, "0"),
        (7, "7"),
        (10, "10"),
        (404, "404"),
        (9110, "9110"),
        (100000, "100000"),
        (u32::MAX, "4294967295"),
    ] {
        let mut out = String::from("n=");
        push_decimal(&mut out, n);
        assert_eq!(out, format!("n={}", text));
    }
}
