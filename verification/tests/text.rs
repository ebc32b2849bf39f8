use eza_options::error::join;
use eza_options::number::{format_decimal, parse_decimal};
use eza_options::text::{split, str_eq};

#[test]
fn equal_strings() {
    assert!(str_eq("", ""));
    assert!(str_eq("colour", "colour"));
    assert!(str_eq("naïve ☃", "naïve ☃"));
    assert!(!str_eq("colour", "color"));
    assert!(!str_eq("color", "colour"));
    assert!(!str_eq("a", "b"));
    assert!(!str_eq("a", ""));
    assert!(!str_eq("é", "e"));
}

#[test]
fn numbers_read() {
    assert_eq!(parse_decimal("0"), Some(0));
    assert_eq!(parse_decimal("42"), Some(42));
    assert_eq!(parse_decimal("+7"), Some(7));
    assert_eq!(parse_decimal("000123"), Some(123));
    assert_eq!(parse_decimal(&usize::MAX.to_string()), Some(usize::MAX));
}

#[test]
fn numbers_refused() {
    assert_eq!(parse_decimal(""), None);
    assert_eq!(parse_decimal("+"), None);
    assert_eq!(parse_decimal("-1"), None);
    assert_eq!(parse_decimal("++1"), None);
    assert_eq!(parse_decimal("1+"), None);
    assert_eq!(parse_decimal("12a"), None);
    assert_eq!(parse_decimal(" 12"), None);
    assert_eq!(parse_decimal("1.5"), None);
    assert_eq!(parse_decimal("１２"), None);
    assert_eq!(parse_decimal("12é"), None);
    assert_eq!(parse_decimal("340282366920938463463374607431768211456"), None);
    let beyond = format!("{}0", usize::MAX);
    assert_eq!(parse_decimal(&beyond), None);
    let mut next = usize::MAX.to_string().into_bytes();
    let last = next.len() - 1;
    next[last] += 1;
    assert_eq!(parse_decimal(&String::from_utf8(next).unwrap()), None);
}

#[test]
fn numbers_written() {
    assert_eq!(format_decimal(0), "0");
    assert_eq!(format_decimal(7), "7");
    assert_eq!(format_decimal(10), "10");
    assert_eq!(format_decimal(1234567890), "1234567890");
    assert_eq!(format_decimal(usize::MAX), usize::MAX.to_string());
}

#[test]
fn numbers_written_are_read_back() {
    for n in [0usize, 1, 9, 10, 11, 99, 100, 101, 65535, 4294967295, usize::MAX] {
        assert_eq!(parse_decimal(&format_decimal(n)), Some(n));
    }
}

#[test]
fn split_at_separators() {
    assert_eq!(split("a|b|c", '|'), vec!["a", "b", "c"]);
    assert_eq!(split("abc", '|'), vec!["abc"]);
    assert_eq!(split("", '|'), vec![""]);
    assert_eq!(split("|", '|'), vec!["", ""]);
    assert_eq!(split("a||b", '|'), vec!["a", "", "b"]);
    assert_eq!(split("|a|", '|'), vec!["", "a", ""]);
    assert_eq!(split("*.é|☃", '|'), vec!["*.é", "☃"]);
    assert_eq!(split("a,b|c", ','), vec!["a", "b|c"]);
}

#[test]
fn split_as_std_does() {
    for text in ["", "x", "|", "||", "a|b", "|a||b|", "señor|naïve|☃☃|"] {
        let expected: Vec<String> = text.split('|').map(str::to_string).collect();
        assert_eq!(split(text, '|'), expected);
    }
}

#[test]
fn joined_words() {
    assert_eq!(join(&vec![], ", "), "");
    assert_eq!(join(&vec!["one"], ", "), "one");
    assert_eq!(join(&vec!["one", "two", "three"], ", "), "one, two, three");
    assert_eq!(join(&vec!["", ""], "|"), "|");
}
