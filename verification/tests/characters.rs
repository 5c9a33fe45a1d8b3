use gitstatus::decimal::decimal_string;
use gitstatus::text::{
    char_is_whitespace, chars_of, last_segment_start, line_end, range_equals, range_starts_with,
    string_of_range, trim_range,
};

fn trimmed(s: &str) -> String {
    let v = chars_of(s);
    let (from, to) = trim_range(&v, 0, v.len());
    string_of_range(&v, from, to)
}

#[test]
fn whitespace_is_what_the_standard_library_calls_whitespace() {
    for code in 0..=0x10FFFFu32 {
        if let Some(c) = char::from_u32(code) {
            assert_eq!(char_is_whitespace(c), c.is_whitespace(), "U+{:04X}", code);
        }
    }
}

#[test]
fn trimming_agrees_with_the_standard_library() {
    for s in ["", " ", "a", "  a b  ", "\t\r\nx\u{00A0}\u{3000}", "\u{2003}mid dle\u{2028}", "no-space"] {
        assert_eq!(trimmed(s), s.trim());
    }
}

#[test]
fn characters_round_trip() {
    let s = "héllo ✓ wörld";
    let v = chars_of(s);
    assert_eq!(v.len(), 13);
    assert_eq!(string_of_range(&v, 0, v.len()), s);
    assert_eq!(string_of_range(&v, 6, 7), "✓");
}

#[test]
fn prefixes_and_equality_of_ranges() {
    let v = chars_of("remote = origin");
    assert!(range_starts_with(&v, 0, v.len(), &chars_of("remote =")));
    assert!(!range_starts_with(&v, 1, v.len(), &chars_of("remote =")));
    assert!(!range_starts_with(&v, 0, 5, &chars_of("remote =")));
    assert!(range_starts_with(&v, 3, 3, &chars_of("")));
    assert!(range_equals(&v, 9, 15, &chars_of("origin")));
    assert!(!range_equals(&v, 9, 14, &chars_of("origin")));
}

#[test]
fn line_ends_and_segments() {
    let v = chars_of("ab\ncd/ef\n");
    assert_eq!(line_end(&v, 0), 2);
    assert_eq!(line_end(&v, 2), 2);
    assert_eq!(line_end(&v, 3), 8);
    assert_eq!(line_end(&v, 9), 9);
    assert_eq!(last_segment_start(&v, 3, 8), 6);
    assert_eq!(last_segment_start(&v, 0, 2), 0);
    assert_eq!(last_segment_start(&v, 3, 6), 6);
}

#[test]
fn decimal_notation() {
    assert_eq!(decimal_string(0), "0");
    assert_eq!(decimal_string(7), "7");
    assert_eq!(decimal_string(10), "10");
    assert_eq!(decimal_string(1009), "1009");
    assert_eq!(decimal_string(usize::MAX), usize::MAX.to_string());
}
