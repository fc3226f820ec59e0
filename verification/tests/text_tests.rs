use alloy_control::text::{
    ascii_lower, chars_of, contains, decimal_string, find_from, join2, join3, lines, matches_at,
    parse_unsigned, replace_all, same_text, space, split_second, starts_with, string_of, trim,
    words,
};

const SAMPLES: [&str; 22] = [
    "",
    " ",
    "a",
    "hello world",
    "  lead and trail \t\n",
    "line1\nline2\n",
    "line1\r\nline2\r\n\r\nlast",
    "\n",
    "\n\n",
    "\r",
    "a\rb\r\n",
    "tab\tseparated\tvalues",
    "nbsp\u{a0}here\u{2003}and\u{3000}there",
    "\u{85}next\u{2028}line\u{2029}",
    "zero\u{200b}width is no space",
    "ümlaut ünd ß",
    "x,y,,z",
    "/object/public/",
    "a/object/public/b",
    "aaa",
    "http://http://",
    "\u{1680}ogham\u{202f}\u{205f}",
];

#[test]
fn lines_agree_with_std() {
    for s in SAMPLES {
        let expected: Vec<String> = s.lines().map(|l| l.to_string()).collect();
        assert_eq!(lines(s), expected, "text {:?}", s);
    }
    assert_eq!(lines("a\nb"), vec!["a", "b"]);
    assert_eq!(lines("a\r\n\r\nb\r"), vec!["a", "", "b\r"]);
    assert!(lines("").is_empty());
    assert_eq!(lines("\n"), vec![""]);
}

#[test]
fn words_agree_with_std() {
    for s in SAMPLES {
        let expected: Vec<String> = s.split_whitespace().map(|w| w.to_string()).collect();
        assert_eq!(words(s), expected, "text {:?}", s);
    }
    assert_eq!(words("  a  bb\tccc\n"), vec!["a", "bb", "ccc"]);
    assert!(words(" \t\n").is_empty());
}

#[test]
fn trim_agrees_with_std() {
    for s in SAMPLES {
        assert_eq!(trim(s), s.trim(), "text {:?}", s);
    }
    assert_eq!(trim("  x y  "), "x y");
    assert_eq!(trim("\u{3000}"), "");
}

#[test]
fn white_space_is_the_unicode_property() {
    for code in 0..0x11_0000u32 {
        if let Some(c) = char::from_u32(code) {
            assert_eq!(space(c), c.is_whitespace(), "char {:x}", code);
        }
    }
}

#[test]
fn searching_agrees_with_std() {
    let patterns = ["", "a", "aa", "/object/public/", "http://", "\n", "line", "ü", "z"];
    for s in SAMPLES {
        for p in patterns {
            assert_eq!(starts_with(s, p), s.starts_with(p), "{:?} starts with {:?}", s, p);
            assert_eq!(contains(s, p), s.contains(p), "{:?} contains {:?}", s, p);
            assert_eq!(same_text(s, p), s == p);
            if !p.is_empty() {
                assert_eq!(replace_all(s, p, "XY"), s.replace(p, "XY"), "{:?} replace {:?}", s, p);
                assert_eq!(replace_all(s, p, ""), s.replace(p, ""));
                assert_eq!(
                    split_second(s, p),
                    s.split(p).nth(1).map(|x| x.to_string()),
                    "{:?} split {:?}",
                    s,
                    p
                );
            }
        }
    }
    let cs = chars_of("abcabc");
    let pat = chars_of("bc");
    assert_eq!(find_from(&cs, &pat, 0), Some(1));
    assert_eq!(find_from(&cs, &pat, 2), Some(4));
    assert_eq!(find_from(&cs, &pat, 5), None);
    assert_eq!(find_from(&cs, &pat, 99), None);
    assert_eq!(find_from(&cs, &chars_of(""), 6), Some(6));
    assert!(matches_at(&cs, &pat, 4));
    assert!(!matches_at(&cs, &pat, 5));
    assert!(!matches_at(&cs, &pat, usize::MAX));
    assert_eq!(string_of(&cs, 1, 4), "bca");
    assert_eq!(string_of(&cs, 3, 3), "");
}

#[test]
fn numbers_parse_as_in_std() {
    for s in [
        "0", "7", "42", "007", "+5", "+", "", "-0", "-5", " 5", "5 ", "1e3", "0x10", "١٢", "65535",
        "65536", "4294967295", "4294967296", "18446744073709551615", "18446744073709551616",
        "000000000000000000000000000000000000001", "99999999999999999999999999999", "++1", "1+",
    ] {
        assert_eq!(parse_unsigned(s, u64::MAX), s.parse::<u64>().ok(), "u64 {:?}", s);
        assert_eq!(parse_unsigned(s, u32::MAX as u64), s.parse::<u32>().ok().map(|n| n as u64), "u32 {:?}", s);
        assert_eq!(parse_unsigned(s, u16::MAX as u64), s.parse::<u16>().ok().map(|n| n as u64), "u16 {:?}", s);
    }
    assert_eq!(parse_unsigned("10", 9), None);
    assert_eq!(parse_unsigned("9", 9), Some(9));
    assert_eq!(parse_unsigned("0", 0), Some(0));
    assert_eq!(parse_unsigned("1", 0), None);
}

#[test]
fn numbers_are_written_in_decimal() {
    for n in [0u64, 1, 9, 10, 11, 99, 100, 101, 12345, 1_000_000, u32::MAX as u64, u64::MAX - 1, u64::MAX] {
        assert_eq!(decimal_string(n), n.to_string());
    }
}

#[test]
fn texts_are_joined_and_lowered() {
    assert_eq!(join2("ab", "cd"), "abcd");
    assert_eq!(join2("", ""), "");
    assert_eq!(join3("a", "", "c"), "ac");
    assert_eq!(ascii_lower("Hello WORLD 123 ÄÖ"), "hello world 123 ÄÖ");
    for s in SAMPLES {
        assert_eq!(ascii_lower(s), s.to_ascii_lowercase());
        assert_eq!(chars_of(s), s.chars().collect::<Vec<char>>());
    }
}
