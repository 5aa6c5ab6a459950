use inputplumber::table::Table;
use inputplumber::text;

#[test]
fn white_space_is_that_of_unicode() {
    for code in 0..=0x10ffffu32 {
        if let Some(c) = char::from_u32(code) {
            assert_eq!(text::white_space(c), c.is_whitespace(), "{code:x}");
        }
    }
}

#[test]
fn trim_agrees_with_strings() {
    for s in ["", " ", "a", " a", "a ", "\t a b \n", "\u{2003}x\u{a0}", "\u{200b}x"] {
        assert_eq!(text::trim(s), s.trim());
    }
}

#[test]
fn split_agrees_with_strings() {
    for s in ["", "\n", "a", "a\nb", "a\n\nb\n", "\u{e9}\n\u{20ac}"] {
        let parts: Vec<&str> = s.split('\n').collect();
        assert_eq!(text::split(s, '\n'), parts);
    }
}

#[test]
fn split_whitespace_agrees_with_strings() {
    for s in ["", " ", "a", " a", "a ", "12.5 25 \t50\n", "\u{2003}x\u{a0}y z"] {
        let parts: Vec<&str> = s.split_whitespace().collect();
        assert_eq!(text::split_whitespace(s), parts);
    }
}

#[test]
fn split_once_cuts_at_the_first() {
    let (key, value) = text::split_once("A=b=c", '=').unwrap();
    assert_eq!((key.as_str(), value.as_str()), ("A", "b=c"));
    let (key, value) = text::split_once("=", '=').unwrap();
    assert_eq!((key.as_str(), value.as_str()), ("", ""));
    assert!(text::split_once("abc", '=').is_none());
}

#[test]
fn remove_all_agrees_with_strings() {
    for (s, pattern) in [
        ("P: /a P: b", "P: "),
        ("aaaa", "aa"),
        ("aaaaa", "aa"),
        ("", "x"),
        ("xyx", "x"),
        ("abc", "d"),
    ] {
        assert_eq!(text::remove_all(s, pattern), s.replace(pattern, ""));
    }
}

#[test]
fn find_counts_characters() {
    assert_eq!(text::find("\u{e9}a>>b>>", ">>"), Some(2));
    assert_eq!(text::find("abc", ""), Some(0));
    assert_eq!(text::find("abc", "d"), None);
    assert!(text::contains("abc", "bc"));
    assert!(!text::contains("abc", "cb"));
    assert!(text::starts_with("abc", "ab"));
    assert!(!text::starts_with("ab", "abc"));
    assert!(text::ends_with("abc", "bc"));
    assert!(!text::ends_with("bc", "abc"));
}

#[test]
fn numbers_agree_with_strings() {
    for s in [
        "", "0", "+7", "-0", "007", "4294967295", "4294967296", "18446744073709551615",
        "18446744073709551616", "12a", " 1", "+", "99999999999999999999999",
    ] {
        assert_eq!(text::parse_u64(s), s.parse::<u64>().ok(), "{s}");
        assert_eq!(text::parse_u32(s), s.parse::<u32>().ok(), "{s}");
    }
}

#[test]
fn table_keeps_the_first_place_and_the_last_value() {
    let mut table: Table<u32> = Table::new();
    assert!(table.is_empty());
    table.insert(String::from("b"), 1);
    table.insert(String::from("a"), 2);
    table.insert(String::from("b"), 3);
    assert_eq!(table.len(), 2);
    assert_eq!(table.key_at(0), "b");
    assert_eq!(*table.value_at(0), 3);
    assert_eq!(table.key_at(1), "a");
    assert_eq!(table.get("b"), Some(&3));
    assert_eq!(table.get("c"), None);
}
