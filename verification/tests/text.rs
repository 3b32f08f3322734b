use samaritan_core::text::{
    chars_of, contains, count_lines, count_words, decimal_of, exceeds_bytes, has_char,
    is_whitespace, matches_at, prefix_within, same_text, slice_of, split_lines, split_words,
    starts_with, string_of, strip_hyphens, to_ascii_lowercase, trim_chars, trim_range, width_of,
};

fn chars(s: &str) -> Vec<char> {
    s.chars().collect()
}

fn text(v: &Vec<char>) -> String {
    v.iter().collect()
}

#[test]
fn whitespace_is_what_the_standard_library_says() {
    for code in 0..=0x11_0000u32 {
        if let Some(c) = char::from_u32(code) {
            assert_eq!(is_whitespace(c), c.is_whitespace(), "U+{:04X}", code);
        }
    }
}

#[test]
fn width_is_the_length_in_utf8() {
    for code in 0..=0x11_0000u32 {
        if let Some(c) = char::from_u32(code) {
            assert_eq!(width_of(c), c.len_utf8(), "U+{:04X}", code);
        }
    }
}

#[test]
fn conversions_keep_the_characters() {
    for s in ["", "abc", "più 日本語 …", "\n\t"] {
        assert_eq!(chars_of(s), chars(s));
        assert_eq!(string_of(&chars(s)), s);
    }
}

#[test]
fn trimming_is_what_the_standard_library_does() {
    for s in ["", " ", "a", " a", "a ", "  a b  ", "\u{a0}x\u{3000}", "\n\n", " è ", "a\u{200b}"] {
        assert_eq!(text(&trim_chars(&chars(s))), s.trim(), "{:?}", s);
        let (from, to) = trim_range(&chars(s));
        assert_eq!(text(&slice_of(&chars(s), from, to)), s.trim());
        assert_eq!(from == to, s.trim().is_empty());
    }
}

#[test]
fn searching_is_what_the_standard_library_does() {
    let hays = ["", "a", "abcabc", "aaab", "un ddos qui", "zero-day"];
    let needles = ["", "a", "b", "abc", "cab", "aab", "ddos", "abcabca", "day"];
    for hay in hays {
        for needle in needles {
            assert_eq!(contains(&chars(hay), &chars(needle)), hay.contains(needle), "{hay:?} {needle:?}");
            assert_eq!(starts_with(&chars(hay), &chars(needle)), hay.starts_with(needle));
            assert_eq!(same_text(&chars(hay), &chars(needle)), hay == needle);
        }
    }
    assert!(matches_at(&chars("abcabc"), &chars("cab"), 2));
    assert!(!matches_at(&chars("abcabc"), &chars("cab"), 3));
    assert!(!matches_at(&chars("abc"), &chars("c"), usize::MAX));
    assert!(matches_at(&chars("abc"), &chars(""), 3));
    assert!(!matches_at(&chars("abc"), &chars(""), 4));
}

#[test]
fn counting_is_what_the_standard_library_does() {
    for s in ["", " ", "a", "a b", "  a  b  ", "a\nb", "a\n", "\n", "\n\n", "a\nb\n\nc", "uno due\ttre\u{3000}quattro"] {
        assert_eq!(count_words(&chars(s)), s.split_whitespace().count(), "{:?}", s);
    }
    for s in ["", "a", "a\nb", "a\n", "\n", "\n\n", "a\nb\n\nc", "a\r\nb"] {
        assert_eq!(count_lines(&chars(s)), s.lines().count(), "{:?}", s);
    }
}

#[test]
fn lower_case_of_ascii_letters_only() {
    for s in ["", "ABC xyz", "ÀÈ Straße", "[A-Z]@`{"] {
        assert_eq!(text(&to_ascii_lowercase(&chars(s))), s.to_ascii_lowercase());
    }
}

#[test]
fn hyphens_are_stripped_at_both_ends() {
    for s in ["", "-", "---", "-a-", "a", "--a-b--", " -a", "a- "] {
        assert_eq!(text(&strip_hyphens(&chars(s))), s.trim_matches('-'), "{:?}", s);
    }
}

#[test]
fn numerals() {
    for n in [0usize, 1, 9, 10, 11, 99, 100, 12_345, usize::MAX] {
        assert_eq!(text(&decimal_of(n)), n.to_string());
    }
}

#[test]
fn byte_budgets() {
    let s = chars("aà…𝄞b");
    assert_eq!(prefix_within(&s, 0), 0);
    assert_eq!(prefix_within(&s, 1), 1);
    assert_eq!(prefix_within(&s, 2), 1);
    assert_eq!(prefix_within(&s, 3), 2);
    assert_eq!(prefix_within(&s, 5), 2);
    assert_eq!(prefix_within(&s, 6), 3);
    assert_eq!(prefix_within(&s, 9), 3);
    assert_eq!(prefix_within(&s, 10), 4);
    assert_eq!(prefix_within(&s, 11), 5);
    assert_eq!(prefix_within(&s, usize::MAX), 5);
    assert!(exceeds_bytes(&s, 10));
    assert!(!exceeds_bytes(&s, 11));
    assert!(!exceeds_bytes(&Vec::new(), 0));
}

#[test]
fn splitting_is_what_the_standard_library_does() {
    for s in ["", "a", "a b", "  a  b  ", "a\nb", "\u{3000}uno\tdue \n tre", " ", "x\u{a0}"] {
        let words: Vec<String> = split_words(&chars(s)).iter().map(text).collect();
        let expected: Vec<&str> = s.split_whitespace().collect();
        assert_eq!(words, expected, "{:?}", s);
        assert_eq!(words.len(), count_words(&chars(s)));
    }
    for s in ["", "a", "a\nb", "a\n", "\n", "\n\n", "a\nb\n\nc", " a \n b "] {
        let lines: Vec<String> = split_lines(&chars(s)).iter().map(text).collect();
        let expected: Vec<&str> = s.lines().collect();
        assert_eq!(lines, expected, "{:?}", s);
    }
    let lines: Vec<String> = split_lines(&chars("a\r\nb")).iter().map(text).collect();
    assert_eq!(lines, vec!["a\r", "b"]);
    assert!(has_char(&chars("a-b"), '-'));
    assert!(!has_char(&chars("ab"), '-'));
}
