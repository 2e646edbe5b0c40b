use ribbon::text::{replace_all, parse_u64, segment_bounds, segment_str, str_to_pascal_case, to_ascii_uppercase};

#[test]
fn pascal_case_of_snake_case() {
    assert_eq!(str_to_pascal_case("arrow_clockwise"), "ArrowClockwise");
    assert_eq!(str_to_pascal_case("icon_roblox"), "IconRoblox");
    assert_eq!(str_to_pascal_case("person_fill_check"), "PersonFillCheck");
}

#[test]
fn pascal_case_edge_cases() {
    assert_eq!(str_to_pascal_case(""), "");
    assert_eq!(str_to_pascal_case("_a__b_"), "AB");
    assert_eq!(str_to_pascal_case("already"), "Already");
    assert_eq!(str_to_pascal_case("x_1y"), "X1y");
    assert_eq!(str_to_pascal_case("\u{e9}t\u{e9}_b"), "\u{e9}t\u{e9}B");
}

#[test]
fn segments_split_at_separator() {
    let path = "groups/7/memberships/abc";
    assert_eq!(segment_str(path, '/', 0), Some("groups"));
    assert_eq!(segment_str(path, '/', 1), Some("7"));
    assert_eq!(segment_str(path, '/', 3), Some("abc"));
    assert_eq!(segment_str(path, '/', 4), None);
    assert_eq!(segment_bounds(path, '/', 2), Some((9, 20)));
}

#[test]
fn segments_of_empty_pieces() {
    assert_eq!(segment_str("", '/', 0), Some(""));
    assert_eq!(segment_str("a//b/", '/', 1), Some(""));
    assert_eq!(segment_str("a//b/", '/', 3), Some(""));
    assert_eq!(segment_str("a//b/", '/', 4), None);
}

#[test]
fn parse_u64_like_from_str() {
    for text in ["0", "42", "+42", "18446744073709551615", "", "+", "-1", "18446744073709551616", "4a", " 4", "007"] {
        assert_eq!(parse_u64(text), text.parse::<u64>().ok(), "{text}");
    }
    assert_eq!(parse_u64("12345"), Some(12345));
}

#[test]
fn ascii_upper_case() {
    assert_eq!(to_ascii_uppercase('a'), 'A');
    assert_eq!(to_ascii_uppercase('z'), 'Z');
    assert_eq!(to_ascii_uppercase('Q'), 'Q');
    assert_eq!(to_ascii_uppercase('_'), '_');
    assert_eq!(to_ascii_uppercase('\u{e9}'), '\u{e9}');
}

#[test]
fn replacing_like_str_replace() {
    for (s, pat, rep) in [
        ("a{{x}}b{{x}}", "{{x}}", "Q"),
        ("aaa", "aa", "b"),
        ("", "x", "y"),
        ("no match", "zz", "y"),
        ("xx", "x", ""),
        ("h\u{e9}h\u{e9}", "\u{e9}", "e"),
    ] {
        assert_eq!(replace_all(s, pat, rep), s.replace(pat, rep));
    }
}
