use nyacat::text::{
    contains, join, parse_i32, parse_i64, push_decimal, same_text, split_non_empty_pieces,
    split_whitespace, starts_with,
};

#[test]
fn split_whitespace_keeps_words_only() {
    let w = split_whitespace("  $hi  a\tb\u{3000}c\n");
    assert_eq!(w, vec!["$hi", "a", "b", "c"]);
    assert!(split_whitespace(" \t ").is_empty());
    assert!(split_whitespace("").is_empty());
}

#[test]
fn split_whitespace_agrees_with_std() {
    for s in ["a b", "\u{85}x\u{a0}y\u{2028}z", "  ", "one", "x\u{200b}y"] {
        let ours = split_whitespace(s);
        let std: Vec<String> = s.split_whitespace().map(|x| x.to_string()).collect();
        assert_eq!(ours, std, "{s:?}");
    }
}

#[test]
fn substring_search() {
    assert!(contains("今天猫娘好可爱", "猫娘"));
    assert!(!contains("今天猫好可爱", "猫娘"));
    assert!(contains("abc", ""));
    assert!(!contains("", "a"));
    assert!(starts_with("$hi", "$"));
    assert!(!starts_with("hi$", "$"));
    assert!(same_text("admin", "admin"));
    assert!(!same_text("admin", "admins"));
}

#[test]
fn pieces_between_separators() {
    assert_eq!(split_non_empty_pieces("a。。b。", "。"), vec!["a", "b"]);
    assert_eq!(split_non_empty_pieces("ab", ""), vec!["a", "b"]);
    assert_eq!(split_non_empty_pieces("abcbc", "bc"), vec!["a"]);
    assert_eq!(split_non_empty_pieces("aaa", "aa"), vec!["a"]);
    assert!(split_non_empty_pieces("", "x").is_empty());
}

#[test]
fn pieces_agree_with_std_split() {
    for (s, sep) in [("x--y---z", "--"), ("喵。喵。", "。"), ("abc", "abc"), ("ab", "")] {
        let std: Vec<String> =
            s.split(sep).filter(|x| !x.is_empty()).map(|x| x.to_string()).collect();
        assert_eq!(split_non_empty_pieces(s, sep), std, "{s:?} {sep:?}");
    }
}

#[test]
fn decimal_parsing_follows_std() {
    for s in [
        "0", "+12", "-12", "007", "9223372036854775807", "-9223372036854775808",
        "9223372036854775808", "", "-", "+", "1a", " 1", "٣", "--1",
    ] {
        assert_eq!(parse_i64(s), s.parse::<i64>().ok(), "{s:?}");
        assert_eq!(parse_i32(s), s.parse::<i32>().ok(), "{s:?}");
    }
    assert_eq!(parse_i32("2147483648"), None);
    assert_eq!(parse_i32("-2147483648"), Some(i32::MIN));
}

#[test]
fn decimal_printing_follows_display() {
    for n in [0i64, 7, -7, 10, 1156, i64::MAX, i64::MIN] {
        let mut s = String::from("x");
        push_decimal(&mut s, n);
        assert_eq!(s, format!("x{n}"));
    }
}

#[test]
fn join_puts_separator_between() {
    let v = vec!["a".to_string(), "b".to_string(), "c".to_string()];
    assert_eq!(join(&v, " "), "a b c");
    assert_eq!(join(&vec![], " "), "");
    assert_eq!(join(&vec!["x".to_string()], ", "), "x");
}
