use async_xml::escape::same_text;
use async_xml::impls::XmlFromStr;
use async_xml::parse::parse_decimal;
use async_xml::util::XmlVec;

const EMPTY: &str = "cannot parse integer from empty string";
const DIGIT: &str = "invalid digit found in string";
const LARGE: &str = "number too large to fit in target type";
const SMALL: &str = "number too small to fit in target type";

#[test]
fn unsigned_numbers_are_parsed() {
    assert_eq!(u8::from_xml_str("0"), Ok(0));
    assert_eq!(u8::from_xml_str("255"), Ok(255));
    assert_eq!(u8::from_xml_str("+7"), Ok(7));
    assert_eq!(u8::from_xml_str("007"), Ok(7));
    assert_eq!(u16::from_xml_str("65535"), Ok(65535));
    assert_eq!(u32::from_xml_str("4294967295"), Ok(4294967295));
    assert_eq!(u64::from_xml_str("18446744073709551615"), Ok(u64::MAX));
    assert_eq!(u128::from_xml_str("340282366920938463463374607431768211455"), Ok(u128::MAX));
}

#[test]
fn signed_numbers_are_parsed() {
    assert_eq!(i8::from_xml_str("-128"), Ok(-128));
    assert_eq!(i8::from_xml_str("127"), Ok(127));
    assert_eq!(i8::from_xml_str("-0"), Ok(0));
    assert_eq!(i16::from_xml_str("-32768"), Ok(i16::MIN));
    assert_eq!(i32::from_xml_str("-2147483648"), Ok(i32::MIN));
    assert_eq!(i32::from_xml_str("+2147483647"), Ok(i32::MAX));
    assert_eq!(i64::from_xml_str("-9223372036854775808"), Ok(i64::MIN));
    assert_eq!(i64::from_xml_str("9223372036854775807"), Ok(i64::MAX));
}

#[test]
fn numbers_out_of_range_are_rejected() {
    assert_eq!(u8::from_xml_str("256"), Err(LARGE.to_string()));
    assert_eq!(u16::from_xml_str("65536"), Err(LARGE.to_string()));
    assert_eq!(u32::from_xml_str("4294967296"), Err(LARGE.to_string()));
    assert_eq!(u64::from_xml_str("18446744073709551616"), Err(LARGE.to_string()));
    assert_eq!(u128::from_xml_str("340282366920938463463374607431768211456"), Err(LARGE.to_string()));
    assert_eq!(i8::from_xml_str("128"), Err(LARGE.to_string()));
    assert_eq!(i8::from_xml_str("-129"), Err(SMALL.to_string()));
    assert_eq!(i64::from_xml_str("9223372036854775808"), Err(LARGE.to_string()));
    assert_eq!(i64::from_xml_str("-9223372036854775809"), Err(SMALL.to_string()));
}

#[test]
fn texts_that_are_no_numbers_are_rejected() {
    assert_eq!(u32::from_xml_str(""), Err(EMPTY.to_string()));
    assert_eq!(i32::from_xml_str(""), Err(EMPTY.to_string()));
    assert_eq!(u32::from_xml_str("-5"), Err(DIGIT.to_string()));
    assert_eq!(u32::from_xml_str("+"), Err(DIGIT.to_string()));
    assert_eq!(i32::from_xml_str("-"), Err(DIGIT.to_string()));
    assert_eq!(i32::from_xml_str("12a"), Err(DIGIT.to_string()));
    assert_eq!(i32::from_xml_str(" 1"), Err(DIGIT.to_string()));
    assert_eq!(i32::from_xml_str("1 "), Err(DIGIT.to_string()));
    assert_eq!(i32::from_xml_str("--1"), Err(DIGIT.to_string()));
    assert_eq!(u8::from_xml_str("25x"), Err(DIGIT.to_string()));
    assert_eq!(u8::from_xml_str("x999"), Err(DIGIT.to_string()));
    assert_eq!(u8::from_xml_str("\u{663}"), Err(DIGIT.to_string()));
}

#[test]
fn the_first_flaw_from_the_left_decides() {
    assert_eq!(u8::from_xml_str("999x"), Err(LARGE.to_string()));
    assert_eq!(u8::from_xml_str("256x"), Err(LARGE.to_string()));
    assert_eq!(u8::from_xml_str("2x56"), Err(DIGIT.to_string()));
    assert_eq!(i8::from_xml_str("-129x"), Err(SMALL.to_string()));
    assert_eq!(i8::from_xml_str("-12x9"), Err(DIGIT.to_string()));
    assert_eq!(u8::from_xml_str("0000000000000000000000000000000000000000255"), Ok(255));
}

#[test]
fn decimal_takes_every_limit() {
    assert_eq!(parse_decimal("3", false, 3, 3), Ok((false, 3)));
    assert_eq!(parse_decimal("4", false, 3, 3), Err(LARGE.to_string()));
    assert_eq!(parse_decimal("0", false, 0, 0), Ok((false, 0)));
    assert_eq!(parse_decimal("00", true, 0, 0), Ok((false, 0)));
    assert_eq!(parse_decimal("-0", true, 0, 0), Ok((true, 0)));
    assert_eq!(parse_decimal("1", false, 0, 0), Err(LARGE.to_string()));
    assert_eq!(parse_decimal("-1", true, 0, 5), Err(SMALL.to_string()));
    assert_eq!(parse_decimal("10", true, 100, 9), Err(LARGE.to_string()));
}

#[test]
fn decimal_gives_sign_and_magnitude() {
    assert_eq!(parse_decimal("-12", true, 100, 50), Ok((true, 12)));
    assert_eq!(parse_decimal("50", true, 100, 50), Ok((false, 50)));
    assert_eq!(parse_decimal("51", true, 100, 50), Err(LARGE.to_string()));
    assert_eq!(parse_decimal("-100", true, 100, 50), Ok((true, 100)));
    assert_eq!(parse_decimal("-101", true, 100, 50), Err(SMALL.to_string()));
    assert_eq!(parse_decimal("-1", false, 100, 50), Err(DIGIT.to_string()));
}

#[test]
fn booleans_characters_and_strings_are_parsed() {
    assert_eq!(bool::from_xml_str("true"), Ok(true));
    assert_eq!(bool::from_xml_str("false"), Ok(false));
    assert_eq!(bool::from_xml_str("True"), Err("provided string was not `true` or `false`".to_string()));
    assert_eq!(char::from_xml_str("x"), Ok('x'));
    assert_eq!(char::from_xml_str("\u{e9}"), Ok('\u{e9}'));
    assert_eq!(char::from_xml_str(""), Err("cannot parse char from empty string".to_string()));
    assert_eq!(char::from_xml_str("xy"), Err("too many characters in string".to_string()));
    assert_eq!(String::from_xml_str("a b"), Ok("a b".to_string()));
    assert_eq!(String::from_xml_str(""), Ok(String::new()));
}

#[test]
fn lists_are_cut_at_each_space() {
    assert_eq!(XmlVec::<u32>::from_xml_str("2 4 6 7"), Ok(XmlVec::new(vec![2, 4, 6, 7])));
    assert_eq!(XmlVec::<u32>::from_xml_str("42"), Ok(XmlVec::new(vec![42])));
    assert_eq!(XmlVec::<u32>::from_xml_str(""), Err(EMPTY.to_string()));
    assert_eq!(XmlVec::<u32>::from_xml_str("1  2"), Err(EMPTY.to_string()));
    assert_eq!(XmlVec::<u32>::from_xml_str("1 x 3"), Err(DIGIT.to_string()));
    assert_eq!(XmlVec::<u32>::from_xml_str("1 2 "), Err(EMPTY.to_string()));
    assert_eq!(
        XmlVec::<String>::from_xml_str("a  b"),
        Ok(XmlVec::new(vec!["a".to_string(), "".to_string(), "b".to_string()]))
    );
    assert_eq!(XmlVec::<String>::from_xml_str(""), Ok(XmlVec::new(vec!["".to_string()])));
    assert_eq!(
        XmlVec::<String>::from_xml_str("\u{e9}t\u{e9} x"),
        Ok(XmlVec::new(vec!["\u{e9}t\u{e9}".to_string(), "x".to_string()]))
    );
}

#[test]
fn list_gives_access_to_its_vector() {
    let list = XmlVec::<u32>::from_xml_str("1 2 3").unwrap();
    assert_eq!(list.len(), 3);
    assert_eq!(list.iter().sum::<u32>(), 6);
    assert_eq!(list.as_vec(), &vec![1, 2, 3]);
    let items: Vec<u32> = list.into();
    assert_eq!(items, vec![1, 2, 3]);
    let back: XmlVec<u32> = items.into();
    assert_eq!(back, XmlVec::new(vec![1, 2, 3]));
}

#[test]
fn texts_are_compared_by_their_characters() {
    assert!(same_text("", ""));
    assert!(same_text("data", "data"));
    assert!(same_text("\u{e9}t\u{e9}", "\u{e9}t\u{e9}"));
    assert!(!same_text("data", "date"));
    assert!(!same_text("data", "dat"));
    assert!(!same_text("", "a"));
    assert!(!same_text("\u{e9}", "e"));
}
