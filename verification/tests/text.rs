use handy::text::{chars_of, contains, find, find_last, is_white, replace, same, string_of, trim};

const SAMPLES: [&str; 14] = [
    "",
    " ",
    "a",
    " a ",
    "\t\n a b \u{3000}\u{a0}",
    "\u{200b}a\u{feff}",
    "aaa",
    "aaaa",
    "abab",
    "${output}",
    "say ${output}, then ${output}",
    "${out${output}put}",
    "1|2|3|4|5",
    "繁體中文\r\n",
];

#[test]
fn whitespace_is_what_unicode_says() {
    for code in 0..=0x10ffffu32 {
        if let Some(c) = char::from_u32(code) {
            assert_eq!(is_white(c), c.is_whitespace(), "{code:x}");
        }
    }
}

#[test]
fn trimming_agrees_with_the_standard_library() {
    for s in SAMPLES {
        assert_eq!(trim(s), s.trim());
        assert_eq!(trim(&trim(s)), s.trim());
    }
    assert_eq!(trim("  two words \n"), "two words");
}

#[test]
fn replacing_agrees_with_the_standard_library() {
    for s in SAMPLES {
        for pattern in ["a", "aa", "ab", "|", "${output}", "文"] {
            for with in ["", "x", "aa", "${output}"] {
                assert_eq!(replace(s, pattern, with), s.replace(pattern, with));
            }
        }
    }
    assert_eq!(replace("aaa", "aa", "b"), "ba");
}

#[test]
fn text_without_the_pattern_is_kept() {
    assert_eq!(replace("no placeholder", "${output}", "x"), "no placeholder");
}

#[test]
fn searching_agrees_with_the_standard_library() {
    for s in SAMPLES {
        for pattern in ["", "a", "aa", "aaaaa", "b", "|", "${output}", "中文"] {
            assert_eq!(contains(s, pattern), s.contains(pattern), "{s:?} {pattern:?}");
        }
    }
}

#[test]
fn separators_are_found_as_the_standard_library_finds_them() {
    for s in SAMPLES {
        for c in ['|', 'a', ' ', '文'] {
            let chars = chars_of(s);
            let first = chars.iter().position(|d| *d == c).unwrap_or(chars.len());
            let last = chars.iter().rposition(|d| *d == c).map_or(0, |i| i + 1);
            assert_eq!(find(&chars, c), first);
            assert_eq!(find_last(&chars, c), last);
        }
    }
}

#[test]
fn the_part_behind_the_last_separator_is_found() {
    assert_eq!(find_last(&chars_of("ab|c|de"), '|'), 5);
    assert_eq!(find_last(&chars_of("ab|"), '|'), 3);
    assert_eq!(find_last(&chars_of("abc"), '|'), 0);
    assert_eq!(find_last(&[], '|'), 0);
}

#[test]
fn the_first_separator_is_found() {
    assert_eq!(find(&chars_of("ab|c|"), '|'), 2);
    assert_eq!(find(&chars_of("|"), '|'), 0);
    assert_eq!(find(&chars_of("abc"), '|'), 3);
    assert_eq!(find(&[], '|'), 0);
}

#[test]
fn texts_are_the_same_or_not() {
    assert!(same("", ""));
    assert!(same("繁體", "繁體"));
    assert!(!same("a", "A"));
    assert!(!same("a", "ab"));
}

#[test]
fn a_text_is_taken_apart_and_put_together() {
    for s in SAMPLES {
        assert_eq!(chars_of(s), s.chars().collect::<Vec<char>>());
        assert_eq!(string_of(&chars_of(s)), s);
    }
}
