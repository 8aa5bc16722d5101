use cargo_frc::document::Document;
use cargo_frc::decimal::{
    decimal_text, parse_dotted_quad, parse_octet, parse_plain_unsigned, parse_unsigned,
};
use cargo_frc::text::{chars_of, holds_text, join, same_text, split_dots};

fn strings(list: &[&str]) -> Vec<String> {
    list.iter().map(|s| s.to_string()).collect()
}

#[test]
fn texts_are_the_same_where_their_characters_are() {
    assert!(same_text("", ""));
    assert!(same_text("GET", "GET"));
    assert!(same_text("\u{e9}t\u{e9}", "\u{e9}t\u{e9}"));
    assert!(!same_text("GET", "get"));
    assert!(!same_text("GET", "GE"));
    assert!(!same_text("GE", "GET"));
    assert!(!same_text("", " "));
    assert!(!same_text("e\u{301}", "\u{e9}"));
    assert!(!same_text("\u{e9}", "\u{e8}"));
}

#[test]
fn characters_come_one_by_one() {
    assert_eq!(chars_of(""), Vec::<char>::new());
    assert_eq!(chars_of("a\u{e9}\u{1f916}."), vec!['a', '\u{e9}', '\u{1f916}', '.']);
}

#[test]
fn path_is_cut_at_its_dots() {
    assert_eq!(split_dots("a.serial"), strings(&["a", "serial"]));
    assert_eq!(split_dots("serial"), strings(&["serial"]));
    assert_eq!(split_dots(""), strings(&[""]));
    assert_eq!(split_dots("."), strings(&["", ""]));
    assert_eq!(split_dots("a."), strings(&["a", ""]));
    assert_eq!(split_dots(".a"), strings(&["", "a"]));
    assert_eq!(split_dots("a..b"), strings(&["a", "", "b"]));
    assert_eq!(split_dots("d\u{e9}p\u{f4}t.n\u{b0}.1"), strings(&["d\u{e9}p\u{f4}t", "n\u{b0}", "1"]));
    for path in ["", "a", "a.b.c", "..", "x.y.", "\u{1f916}.\u{e9}"] {
        let expected: Vec<String> = path.split('.').map(|key| key.to_string()).collect();
        assert_eq!(split_dots(path), expected);
        assert_eq!(join(&split_dots(path), "."), path);
    }
}

#[test]
fn number_is_read_from_digits_alone() {
    assert_eq!(parse_unsigned("0", 0), Some(0));
    assert_eq!(parse_unsigned("1", 0), None);
    assert_eq!(parse_unsigned("255", 255), Some(255));
    assert_eq!(parse_unsigned("256", 255), None);
    assert_eq!(parse_unsigned("0255", 255), Some(255));
    assert_eq!(parse_unsigned("9", 5), None);
    assert_eq!(parse_unsigned("10", 5), None);
    assert_eq!(parse_unsigned("", 255), None);
    assert_eq!(parse_unsigned("+1", 255), None);
    assert_eq!(parse_unsigned("-1", 255), None);
    assert_eq!(parse_unsigned("1 ", 255), None);
    assert_eq!(parse_unsigned("1\u{661}", 255), None);
    assert_eq!(parse_unsigned("18446744073709551615", u64::MAX), Some(u64::MAX));
    assert_eq!(parse_unsigned("18446744073709551616", u64::MAX), None);
    assert_eq!(parse_unsigned("184467440737095516150", u64::MAX), None);
    assert_eq!(parse_unsigned("99999999999999999999", u64::MAX), None);
    assert_eq!(parse_unsigned("00000000000000000000000000001", u64::MAX), Some(1));
}

#[test]
fn plain_number_may_start_with_a_plus() {
    assert_eq!(parse_plain_unsigned("+17", 100), Some(17));
    assert_eq!(parse_plain_unsigned("17", 100), Some(17));
    assert_eq!(parse_plain_unsigned("+100", 100), Some(100));
    assert_eq!(parse_plain_unsigned("+101", 100), None);
    assert_eq!(parse_plain_unsigned("+", 100), None);
    assert_eq!(parse_plain_unsigned("++1", 100), None);
    assert_eq!(parse_plain_unsigned("1+", 100), None);
    assert_eq!(parse_plain_unsigned("", 100), None);
    assert_eq!(parse_plain_unsigned("-1", 100), None);
}

#[test]
fn octet_has_no_zero_in_front() {
    assert_eq!(parse_octet("0"), Some(0));
    assert_eq!(parse_octet("7"), Some(7));
    assert_eq!(parse_octet("10"), Some(10));
    assert_eq!(parse_octet("255"), Some(255));
    assert_eq!(parse_octet("256"), None);
    assert_eq!(parse_octet("00"), None);
    assert_eq!(parse_octet("07"), None);
    assert_eq!(parse_octet("007"), None);
    assert_eq!(parse_octet("1000"), None);
    assert_eq!(parse_octet(""), None);
    assert_eq!(parse_octet("1a"), None);
}

#[test]
fn dotted_quad_has_four_octets() {
    assert_eq!(parse_dotted_quad("10.12.34.2"), Some((10, 12, 34, 2)));
    assert_eq!(parse_dotted_quad("0.0.0.0"), Some((0, 0, 0, 0)));
    assert_eq!(parse_dotted_quad("255.255.255.255"), Some((255, 255, 255, 255)));
    assert_eq!(parse_dotted_quad("10.12.34"), None);
    assert_eq!(parse_dotted_quad("10.12.34.2.1"), None);
    assert_eq!(parse_dotted_quad("10.12.34.256"), None);
    assert_eq!(parse_dotted_quad("10.12.034.2"), None);
    assert_eq!(parse_dotted_quad(""), None);
}

#[test]
fn numbers_are_written_without_zeros_in_front() {
    assert_eq!(decimal_text(0), "0");
    assert_eq!(decimal_text(9), "9");
    assert_eq!(decimal_text(10), "10");
    assert_eq!(decimal_text(1234), "1234");
    assert_eq!(decimal_text(1000000), "1000000");
    assert_eq!(decimal_text(u64::MAX), "18446744073709551615");
    for value in [0u64, 5, 42, 100, 65535, 4294967296, u64::MAX] {
        assert_eq!(decimal_text(value), value.to_string());
        assert_eq!(parse_unsigned(&decimal_text(value), u64::MAX), Some(value));
    }
}

#[test]
fn texts_are_joined_with_the_separator_between() {
    assert_eq!(join(&strings(&[]), ","), "");
    assert_eq!(join(&strings(&["a"]), ","), "a");
    assert_eq!(join(&strings(&["a", "b", "c"]), ","), "a,b,c");
    assert_eq!(join(&strings(&["", ""]), ","), ",");
    assert_eq!(join(&strings(&["a", "b"]), ""), "ab");
    assert_eq!(join(&strings(&["a", "b"]), ", "), "a, b");
}

#[test]
fn text_is_looked_for_among_strings() {
    let list = strings(&["a", "b", ""]);
    assert!(holds_text(&list, "a"));
    assert!(holds_text(&list, ""));
    assert!(!holds_text(&list, "c"));
    assert!(!holds_text(&list, "A"));
    assert!(!holds_text(&vec![], ""));
}

#[test]
fn document_gives_what_its_shape_holds() {
    let inner = Document::Object(vec![("k".to_string(), Document::Bool(true))]);
    let doc = Document::Object(vec![
        ("text".to_string(), Document::String("t".to_string())),
        ("list".to_string(), Document::Array(vec![Document::Null, Document::Bool(false)])),
        ("inner".to_string(), inner),
        ("text".to_string(), Document::String("second".to_string())),
    ]);
    assert_eq!(doc.get("text").unwrap().as_str(), Some("t"));
    assert_eq!(doc.get("list").unwrap().as_array().unwrap().len(), 2);
    assert_eq!(doc.get("inner").unwrap().as_object().unwrap().len(), 1);
    assert!(matches!(doc.get("inner").unwrap().get("k"), Some(Document::Bool(true))));
    assert!(doc.get("Text").is_none());
    assert!(doc.get("").is_none());
    assert!(doc.get("text").unwrap().get("text").is_none());
    assert!(doc.get("list").unwrap().get("0").is_none());
    assert!(doc.as_str().is_none());
    assert!(doc.as_array().is_none());
    assert!(doc.get("text").unwrap().as_object().is_none());
    assert_eq!(doc.as_object().unwrap().len(), 4);
}
