use xml_data::errors::{
    inner_element_not_parsed, missing_attribute, missing_element, missing_unknown_element,
    unexpected_attribute, unexpected_decl, unexpected_doctype, unexpected_element,
    unexpected_end, unexpected_eof, unexpected_pi, unexpected_text, Error,
};
use xml_data::text::{format_bool, format_u32, is_all_whitespace, parse_bool, parse_u32, str_eq};
use xml_data::IgnoreUnknown;

#[test]
fn parse_u32_accepts_decimal() {
    assert_eq!(parse_u32("0").unwrap(), 0);
    assert_eq!(parse_u32("42").unwrap(), 42);
    assert_eq!(parse_u32("+42").unwrap(), 42);
    assert_eq!(parse_u32("007").unwrap(), 7);
    assert_eq!(parse_u32("4294967295").unwrap(), 4294967295);
}

#[test]
fn parse_u32_rejects_bad_input() {
    assert!(parse_u32("").is_err());
    assert!(parse_u32("+").is_err());
    assert!(parse_u32("-1").is_err());
    assert!(parse_u32("12a").is_err());
    assert!(parse_u32(" 1").is_err());
    assert!(parse_u32("4294967296").is_err());
    assert!(parse_u32("99999999999999999999").is_err());
    assert!(parse_u32("١٢").is_err());
}

#[test]
fn format_u32_is_canonical_decimal() {
    assert_eq!(format_u32(0), "0");
    assert_eq!(format_u32(7), "7");
    assert_eq!(format_u32(10), "10");
    assert_eq!(format_u32(4294967295), "4294967295");
}

#[test]
fn format_then_parse_is_identity() {
    for n in [0u32, 1, 9, 10, 99, 100, 12345, 4294967295] {
        assert_eq!(parse_u32(&format_u32(n)).unwrap(), n);
    }
}

#[test]
fn parse_bool_accepts_the_two_words() {
    assert_eq!(parse_bool("true").unwrap(), true);
    assert_eq!(parse_bool("false").unwrap(), false);
    assert!(parse_bool("").is_err());
    assert!(parse_bool("True").is_err());
    assert!(parse_bool("1").is_err());
    assert!(parse_bool(" true").is_err());
}

#[test]
fn format_bool_round_trips() {
    assert_eq!(format_bool(true), "true");
    assert_eq!(format_bool(false), "false");
    assert_eq!(parse_bool(format_bool(true)).unwrap(), true);
    assert_eq!(parse_bool(format_bool(false)).unwrap(), false);
}

#[test]
fn str_eq_compares_contents() {
    assert!(str_eq("", ""));
    assert!(str_eq("abc", "abc"));
    assert!(!str_eq("abc", "abd"));
    assert!(!str_eq("abc", "ab"));
    assert!(str_eq("héllo", "héllo"));
    assert!(!str_eq("héllo", "hallo"));
}

#[test]
fn whitespace_test_matches_xml_whitespace() {
    assert!(is_all_whitespace(""));
    assert!(is_all_whitespace(" \t\r\n"));
    assert!(!is_all_whitespace(" x "));
    assert!(!is_all_whitespace("é"));
}

#[test]
fn error_constructors_build_their_variants() {
    assert!(matches!(unexpected_eof("why"), Error::UnexpectedEof { msg } if msg == "why"));
    assert!(matches!(unexpected_end(), Error::UnexpectedEnd));
    assert!(matches!(unexpected_decl(), Error::UnexpectedDecl));
    assert!(matches!(unexpected_doctype(), Error::UnexpectedDocType));
    assert!(matches!(unexpected_pi(), Error::UnexpectedPi));
    assert!(matches!(unexpected_text(), Error::UnexpectedText));
    assert!(matches!(unexpected_element("t"), Error::UnexpectedElement { tag } if tag == "t"));
    assert!(matches!(unexpected_attribute("k"), Error::UnexpectedAttribute { key } if key == "k"));
    assert!(
        matches!(inner_element_not_parsed("t"), Error::InnerElementNotParsed { tag } if tag == "t")
    );
    assert!(matches!(missing_element("t"), Error::MissingElement { tag } if tag == "t"));
    assert!(matches!(missing_unknown_element(), Error::MissingUnknownElement));
    assert!(matches!(missing_attribute("k"), Error::MissingAttribute { key } if key == "k"));
}

#[test]
fn error_messages_name_the_subject() {
    assert_eq!(missing_attribute("key").message(), "Missing attribute \"key\"");
    assert_eq!(missing_element("foo").message(), "Missing element \"foo\"");
    assert_eq!(
        inner_element_not_parsed("foo").message(),
        "Inner element \"foo\" wasn't fully parsed",
    );
    assert_eq!(unexpected_attribute("x").message(), "Unexpected attribute: x");
    assert_eq!(unexpected_element("e").message(), "Unexpected element: e");
    assert_eq!(unexpected_eof("empty document").message(), "unexpected eof: empty document");
    assert_eq!(unexpected_end().message(), "Unexpected end tag");
}

#[test]
fn ignore_unknown_policy_switches() {
    let none = IgnoreUnknown::default();
    assert!(!none.elements() && !none.attributes() && !none.text());
    let all = IgnoreUnknown::all(true);
    assert!(all.elements() && all.attributes() && all.text());
    let mixed = IgnoreUnknown { ignore_elements: true, ignore_attributes: false, ignore_text: true };
    assert!(mixed.elements());
    assert!(!mixed.attributes());
    assert!(mixed.text());
}
