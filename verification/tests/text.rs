use vapor_cli::text::{
    byte_len, char_is_control, char_is_whitespace, chars_blank, chars_contain, chars_contain_char,
    chars_count, chars_end_with, chars_equal, chars_less, chars_start_with, decimal_chars,
    decimal_text, join_strings, parse_usize_chars, signed_decimal_text, split_words,
    strip_trailing_chars, to_chars, to_text, to_text_range, trim_chars,
};

fn chars(s: &str) -> Vec<char> {
    s.chars().collect()
}

fn text(v: &[char]) -> String {
    v.iter().collect()
}

const SAMPLES: [&str; 16] = [
    "",
    " ",
    "a",
    "  a  ",
    "\t\n hello world \r\n",
    "\u{a0}x\u{2003}y\u{3000}",
    "a\u{85}b",
    "one  two\tthree\nfour",
    "   ",
    "é è",
    "\u{1680}\u{2028}\u{2029}\u{202f}\u{205f}",
    "x\u{200b}y",
    "drop table users;",
    ";;;",
    "a;b;;",
    "\u{feff}z ",
];

#[test]
fn whitespace_and_control_agree_with_the_standard_library() {
    let mut c = 0u32;
    while c <= 0x10ffff {
        if let Some(ch) = char::from_u32(c) {
            assert_eq!(char_is_whitespace(ch), ch.is_whitespace(), "{:x}", c);
            assert_eq!(char_is_control(ch), ch.is_control(), "{:x}", c);
        }
        c += 1;
    }
}

#[test]
fn conversions_keep_the_text() {
    for s in SAMPLES {
        assert_eq!(to_chars(s), chars(s));
        assert_eq!(to_text(&chars(s)), s);
        assert_eq!(byte_len(s), s.len());
    }
    assert_eq!(to_text_range(&chars("héllo"), 1, 4), "éll");
    assert_eq!(to_text_range(&chars("héllo"), 2, 2), "");
    assert_eq!(byte_len("é"), 2);
}

#[test]
fn trim_agrees_with_the_standard_library() {
    for s in SAMPLES {
        assert_eq!(text(&trim_chars(&chars(s))), s.trim(), "{:?}", s);
        assert_eq!(chars_blank(&chars(s)), s.trim().is_empty(), "{:?}", s);
    }
    assert_eq!(text(&trim_chars(&chars("  a b  "))), "a b");
}

#[test]
fn words_agree_with_the_standard_library() {
    for s in SAMPLES {
        let got: Vec<String> = split_words(&chars(s)).iter().map(|w| text(w)).collect();
        let expected: Vec<String> = s.split_whitespace().map(|w| w.to_string()).collect();
        assert_eq!(got, expected, "{:?}", s);
    }
    let got: Vec<String> = split_words(&chars(" a  bc d ")).iter().map(|w| text(w)).collect();
    assert_eq!(got, vec!["a", "bc", "d"]);
}

#[test]
fn searching_agrees_with_the_standard_library() {
    let patterns = ["", "a", "ab", "o w", "table", ";;", "é", "zzz", "drop table users;x"];
    for s in SAMPLES {
        for p in patterns {
            assert_eq!(chars_contain(&chars(s), p), s.contains(p), "{:?} {:?}", s, p);
            assert_eq!(chars_start_with(&chars(s), p), s.starts_with(p), "{:?} {:?}", s, p);
        }
        for c in [';', ' ', 'a', 'é'] {
            assert_eq!(chars_contain_char(&chars(s), c), s.contains(c));
            assert_eq!(chars_end_with(&chars(s), c), s.ends_with(c));
            assert_eq!(chars_count(&chars(s), c), s.chars().filter(|x| *x == c).count());
            assert_eq!(text(&strip_trailing_chars(&chars(s), c)), s.trim_end_matches(c));
        }
    }
    assert_eq!(text(&strip_trailing_chars(&chars("users;;"), ';')), "users");
    assert_eq!(chars_count(&chars("(a(b))"), '('), 2);
}

#[test]
fn order_agrees_with_the_standard_library() {
    for a in SAMPLES {
        for b in SAMPLES {
            assert_eq!(chars_less(&chars(a), &chars(b)), a < b, "{:?} {:?}", a, b);
            assert_eq!(chars_equal(&chars(a), &chars(b)), a == b);
        }
    }
    assert!(chars_less(&chars("app"), &chars("apple")));
    assert!(chars_less(&chars("Zebra"), &chars("apple")));
    assert!(!chars_less(&chars("b"), &chars("a")));
    assert!(chars_less(&chars("z"), &chars("é")));
    assert!(chars_less(&chars("\u{ffff}"), &chars("\u{10000}")));
}

#[test]
fn numbers_agree_with_the_standard_library() {
    let inputs = [
        "0", "7", "42", "007", "+5", "+", "-", "-3", "", " 1", "1 ", "1_000", "12a", "٣",
        "18446744073709551615", "18446744073709551616", "99999999999999999999999999", "+0",
        "++1", "4294967295", "4294967296",
    ];
    for s in inputs {
        assert_eq!(parse_usize_chars(&chars(s)), s.parse::<usize>().ok(), "{:?}", s);
    }
    assert_eq!(parse_usize_chars(&chars("1000")), Some(1000));
    for n in [0u64, 1, 9, 10, 99, 100, 12345, u32::MAX as u64, u64::MAX] {
        assert_eq!(text(&decimal_chars(n)), n.to_string());
    }
    assert_eq!(decimal_text(1000), "1000");
    for n in [0i64, 1, -1, 10, -10, 123456789, -987654321, i64::MAX, i64::MIN] {
        assert_eq!(signed_decimal_text(n), n.to_string());
    }
    assert_eq!(signed_decimal_text(-42), "-42");
}

#[test]
fn joining_puts_the_separator_between() {
    let parts = vec!["a".to_string(), "".to_string(), "c".to_string()];
    assert_eq!(join_strings(&parts, ", "), "a, , c");
    assert_eq!(join_strings(&parts[..1].to_vec(), ","), "a");
    assert_eq!(join_strings(&Vec::new(), ","), "");
}
