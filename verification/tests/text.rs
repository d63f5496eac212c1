use safe_url::text::{
    chars_of, contains_doubled, join_text, split_text, text_eq, text_to_u64, u64_to_text,
};

#[test]
fn numbers_are_written_in_decimal() {
    assert_eq!(u64_to_text(0), "0");
    assert_eq!(u64_to_text(7), "7");
    assert_eq!(u64_to_text(10), "10");
    assert_eq!(u64_to_text(234), "234");
    assert_eq!(u64_to_text(61342), "61342");
    assert_eq!(u64_to_text(u64::MAX), "18446744073709551615");
}

#[test]
fn decimal_numbers_are_read() {
    assert_eq!(text_to_u64("0"), Some(0));
    assert_eq!(text_to_u64("5"), Some(5));
    assert_eq!(text_to_u64("+5"), Some(5));
    assert_eq!(text_to_u64("007"), Some(7));
    assert_eq!(text_to_u64("61342"), Some(61342));
    assert_eq!(text_to_u64("18446744073709551615"), Some(u64::MAX));
}

#[test]
fn what_is_no_number_is_not_read() {
    assert_eq!(text_to_u64(""), None);
    assert_eq!(text_to_u64("+"), None);
    assert_eq!(text_to_u64("-1"), None);
    assert_eq!(text_to_u64("5a"), None);
    assert_eq!(text_to_u64("a5"), None);
    assert_eq!(text_to_u64("++5"), None);
    assert_eq!(text_to_u64("5+"), None);
    assert_eq!(text_to_u64(" 5"), None);
    assert_eq!(text_to_u64("1_000"), None);
    assert_eq!(text_to_u64("non-integer"), None);
    assert_eq!(text_to_u64("18446744073709551616"), None);
    assert_eq!(text_to_u64("99999999999999999999999"), None);
    assert_eq!(text_to_u64("٣"), None);
}

#[test]
fn reading_agrees_with_the_standard_library() {
    for s in ["", "+", "0", "+0", "12", "+12", "012", "-3", "1e3", "18446744073709551615",
        "18446744073709551616", "184467440737095516150"]
    {
        assert_eq!(text_to_u64(s), s.parse::<u64>().ok(), "{:?}", s);
    }
}

#[test]
fn written_numbers_read_back() {
    for n in [0u64, 1, 9, 10, 99, 100, 234, 1_500, u64::MAX - 1, u64::MAX] {
        assert_eq!(text_to_u64(&u64_to_text(n)), Some(n));
        assert_eq!(u64_to_text(n), n.to_string());
    }
}

#[test]
fn text_splits_at_every_separator() {
    assert_eq!(split_text("a.b.c", '.'), vec!["a", "b", "c"]);
    assert_eq!(split_text("abc", '.'), vec!["abc"]);
    assert_eq!(split_text("", '.'), vec![""]);
    assert_eq!(split_text(".", '.'), vec!["", ""]);
    assert_eq!(split_text("a..b", '.'), vec!["a", "", "b"]);
    assert_eq!(split_text("/a/b/", '/'), vec!["", "a", "b", ""]);
    assert_eq!(split_text("ü.é", '.'), vec!["ü", "é"]);
}

#[test]
fn pieces_join_with_the_separator_between() {
    let none: Vec<String> = vec![];
    assert_eq!(join_text(&none, "."), "");
    assert_eq!(join_text(&vec!["a".to_string()], "."), "a");
    assert_eq!(join_text(&vec!["a".to_string(), "b".to_string()], "."), "a.b");
    assert_eq!(join_text(&vec!["".to_string(), "".to_string()], "/"), "/");
    assert_eq!(
        join_text(&vec!["a".to_string(), "".to_string(), "b".to_string()], "/"),
        "a//b"
    );
}

#[test]
fn joining_the_pieces_gives_the_text_back() {
    for s in ["", "a", ".", "a.b", "..", "a..b.", ".a.b.c"] {
        assert_eq!(join_text(&split_text(s, '.'), "."), s);
    }
}

#[test]
fn doubled_characters_are_found() {
    assert!(contains_doubled("a..b", '.'));
    assert!(contains_doubled("..", '.'));
    assert!(contains_doubled("a/b//", '/'));
    assert!(!contains_doubled("", '.'));
    assert!(!contains_doubled(".", '.'));
    assert!(!contains_doubled("a.b.c.", '.'));
    assert!(!contains_doubled("././", '.'));
}

#[test]
fn texts_compare_by_their_characters() {
    assert!(text_eq("", ""));
    assert!(text_eq("safe", "safe"));
    assert!(!text_eq("safe", "Safe"));
    assert!(!text_eq("safe", "safe "));
}

#[test]
fn characters_are_counted_not_bytes() {
    assert_eq!(chars_of("aüb"), vec!['a', 'ü', 'b']);
    assert_eq!(chars_of(""), Vec::<char>::new());
    assert_eq!(split_text("aü/üb", '/'), vec!["aü", "üb"]);
}
