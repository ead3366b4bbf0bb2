use dbtui::text::{
    contains_char, decimal_string, eq_ignore_ascii_case, escape, same_text, str_le, text_of_bytes,
};

#[test]
fn decimal_of_small_numbers() {
    assert_eq!(decimal_string(0), "0");
    assert_eq!(decimal_string(7), "7");
    assert_eq!(decimal_string(10), "10");
    assert_eq!(decimal_string(100), "100");
    assert_eq!(decimal_string(9081726354), "9081726354");
}

#[test]
fn decimal_of_negative_numbers() {
    assert_eq!(decimal_string(-1), "-1");
    assert_eq!(decimal_string(-10), "-10");
    assert_eq!(decimal_string(-305), "-305");
}

#[test]
fn decimal_of_the_limits() {
    assert_eq!(decimal_string(i64::MAX), "9223372036854775807");
    assert_eq!(decimal_string(i64::MIN), "-9223372036854775808");
}

#[test]
fn decimal_agrees_with_the_standard_rendering() {
    let mut v: i64 = -1000;
    while v <= 1000 {
        assert_eq!(decimal_string(v), v.to_string());
        v += 1;
    }
}

#[test]
fn case_is_ignored_for_ascii_letters_only() {
    assert!(eq_ignore_ascii_case("TeXt", "tExT"));
    assert!(eq_ignore_ascii_case("", ""));
    assert!(!eq_ignore_ascii_case("text", "tex"));
    assert!(!eq_ignore_ascii_case("text", "test"));
    assert!(!eq_ignore_ascii_case("\u{e9}", "\u{c9}"));
    assert!(!eq_ignore_ascii_case("@", "`"));
    assert!(!eq_ignore_ascii_case("[", "{"));
}

#[test]
fn escape_doubles_the_quote() {
    assert_eq!(escape("users", '\''), "users");
    assert_eq!(escape("o'brien", '\''), "o''brien");
    assert_eq!(escape("''", '\''), "''''");
    assert_eq!(escape("a\"b", '"'), "a\"\"b");
    assert_eq!(escape("a\"b", '\''), "a\"b");
    assert_eq!(escape("", '"'), "");
    assert_eq!(escape("\u{e9}'\u{e9}", '\''), "\u{e9}''\u{e9}");
}

#[test]
fn contains_char_finds_the_character() {
    assert!(contains_char("a\0b", '\0'));
    assert!(!contains_char("ab", '\0'));
    assert!(!contains_char("", 'a'));
    assert!(contains_char("abc", 'c'));
}

#[test]
fn same_text_compares_whole_strings() {
    assert!(same_text("abc", "abc"));
    assert!(same_text("", ""));
    assert!(!same_text("abc", "abd"));
    assert!(!same_text("abc", "ab"));
    assert!(!same_text("abc", "ABC"));
}

#[test]
fn lexicographic_order_of_strings() {
    assert!(str_le("", ""));
    assert!(str_le("", "a"));
    assert!(!str_le("a", ""));
    assert!(str_le("a", "a"));
    assert!(str_le("a", "ab"));
    assert!(!str_le("ab", "a"));
    assert!(str_le("ab", "b"));
    assert!(!str_le("b", "ab"));
    assert!(str_le("Z", "a"));
    assert!(!str_le("a", "Z"));
    assert!(str_le("z", "\u{e9}"));
}

#[test]
fn lexicographic_order_agrees_with_the_standard_order() {
    let words = ["", "a", "ab", "abc", "b", "B", "_x", "users", "orders", "\u{e9}t\u{e9}"];
    for a in words.iter() {
        for b in words.iter() {
            assert_eq!(str_le(a, b), a <= b);
        }
    }
}

#[test]
fn bytes_are_read_as_utf8() {
    assert_eq!(text_of_bytes(&vec![0x68, 0x69]), Some(String::from("hi")));
    assert_eq!(text_of_bytes(&vec![]), Some(String::new()));
    assert_eq!(text_of_bytes(&vec![0xe2, 0x82, 0xac]), Some(String::from("\u{20ac}")));
    assert_eq!(text_of_bytes(&vec![0x80]), None);
    assert_eq!(text_of_bytes(&vec![0xe2, 0x82]), None);
    assert_eq!(text_of_bytes(&vec![0xed, 0xa0, 0x80]), None);
}
