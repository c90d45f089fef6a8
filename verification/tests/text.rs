use arapuca::text::{
    is_white_space, joined, pieces, push_decimal, push_signed, same_text, starts_with,
};

#[test]
fn white_space_is_that_of_unicode() {
    for c in '\0'..=char::MAX {
        assert_eq!(is_white_space(c), c.is_whitespace(), "{c:?}");
    }
}

#[test]
fn decimal_numbers() {
    for n in [0u64, 9, 10, 11, 99, 100, 12_345, u64::MAX] {
        let mut out = String::from("n");
        push_decimal(&mut out, n);
        assert_eq!(out, format!("n{n}"));
    }
    for n in [0i32, -1, 1, -10, i32::MIN, i32::MAX] {
        let mut out = String::new();
        push_signed(&mut out, n);
        assert_eq!(out, format!("{n}"));
    }
}

#[test]
fn prefixes_and_pieces() {
    assert!(starts_with("abc", ""));
    assert!(starts_with("abc", "abc"));
    assert!(!starts_with("abc", "abcd"));
    assert!(!starts_with("abc", "b"));
    assert!(same_text("", ""));
    assert!(!same_text("a", "b"));
    assert_eq!(joined("a", "b"), "ab");
    for list in ["", ":", "a", "a:b", ":a::b:", "\u{e9}:\u{1f600}"] {
        let split: Vec<String> = list.split(':').map(String::from).collect();
        assert_eq!(pieces(list, ':'), split);
    }
}
