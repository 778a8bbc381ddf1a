use bili_sync::strutil::{
    join_parts, replace_newlines, str_contains, str_ends_with, str_find_last, trim_str,
    u64_to_dec, u64_to_four_digits, u64_to_two_digits,
};

#[test]
fn decimal_rendering_has_no_leading_zeros() {
    assert_eq!(u64_to_dec(0), "0");
    assert_eq!(u64_to_dec(7), "7");
    assert_eq!(u64_to_dec(42), "42");
    assert_eq!(u64_to_dec(90210), "90210");
}

#[test]
fn padded_renderings_are_fixed_width() {
    assert_eq!(u64_to_two_digits(0), "00");
    assert_eq!(u64_to_two_digits(9), "09");
    assert_eq!(u64_to_two_digits(99), "99");
    assert_eq!(u64_to_four_digits(3), "0003");
    assert_eq!(u64_to_four_digits(2026), "2026");
}

#[test]
fn trim_handles_unicode_whitespace() {
    assert_eq!(trim_str("  hi  "), "hi");
    assert_eq!(trim_str("hi"), "hi");
    assert_eq!(trim_str(""), "");
    assert_eq!(trim_str(" \u{3000}\t"), "");
    assert_eq!(trim_str("\u{a0}两边 有空白\u{2028}"), "两边 有空白");
}

#[test]
fn newline_replacement_touches_only_newlines() {
    assert_eq!(replace_newlines("a\nb\nc"), "a b c");
    assert_eq!(replace_newlines("plain"), "plain");
    assert_eq!(replace_newlines("\n"), " ");
    assert_eq!(replace_newlines("回\n车"), "回 车");
}

#[test]
fn substring_search_over_unicode() {
    assert!(str_contains("收藏夹/{{name}}", "{{name}}"));
    assert!(str_contains("abc", ""));
    assert!(!str_contains("abc", "abcd"));
    assert!(str_contains("abcabc", "cab"));
    assert!(!str_contains("abc", "x"));
}

#[test]
fn find_last_returns_the_rightmost_hit() {
    assert_eq!(str_find_last("a/b/c", "/"), Some(3));
    assert_eq!(str_find_last("abc", "/"), None);
    assert_eq!(str_find_last("x - y - z", " - "), Some(5));
}

#[test]
fn ends_with_over_chars() {
    assert!(str_ends_with("Title.mp4", ".mp4"));
    assert!(!str_ends_with("Title.mkv", ".mp4"));
    assert!(str_ends_with("x", ""));
}

#[test]
fn join_inserts_the_separator_between_parts() {
    assert_eq!(join_parts(&Vec::new(), " | "), "");
    assert_eq!(join_parts(&vec![String::from("a")], " | "), "a");
    assert_eq!(
        join_parts(&vec![String::from("a"), String::from("b"), String::from("c")], " | "),
        "a | b | c"
    );
}
