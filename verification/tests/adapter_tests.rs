use xml_data::adapter::parser::Parser;
use xml_data::adapter::serializer::serialize_document;
use xml_data::errors::Error;
use xml_data::sample::{Data, DataInner, Example, Foo, Gallery, Items, Outer, Pair, Twin};

fn parse_data(input: &str) -> Result<Data, Error> {
    let mut p = Parser::new(input);
    p.parse_document::<Data>()
}

#[test]
fn parser_test() {
    let input = "<?xml version=\"1.1\" encoding=\"utf-8\"?>\n<data key=\"abc\" other=\"42\"><foo>\n\t\t<unknown/>\n\t</foo></data>";
    let expected = Data {
        key: String::from("abc"),
        other: 42,
        foo1: Some(Foo),
        inner: DataInner { foo2: None, content: String::new() },
    };
    assert_eq!(parse_data(input).unwrap(), expected);
}

#[test]
fn serializer_test() {
    let value = Data {
        key: String::from("abc"),
        other: 42,
        foo1: Some(Foo),
        inner: DataInner { foo2: None, content: String::new() },
    };
    assert_eq!(
        serialize_document(&value).unwrap(),
        "<?xml version=\"1.1\" encoding=\"utf-8\"?><data key=\"abc\" other=\"42\"><foo/></data>",
    );
}

#[test]
fn data_round_trip() {
    // Both `foo` slots are filled: on re-parse the first `foo` child
    // lands in the first declared slot, the second in the next, so the
    // value survives the trip.  (With only the later slot filled the
    // one `foo` child would land in the earlier slot instead:
    // first-declared-wins makes such values non-round-trippable.)
    let value = Data {
        key: String::from("x<y&z"),
        other: 4294967295,
        foo1: Some(Foo),
        inner: DataInner { foo2: Some(Foo), content: String::from("hello world") },
    };
    let text = serialize_document(&value).unwrap();
    assert_eq!(parse_data(&text).unwrap(), value);
}

#[test]
fn missing_required_attribute_is_reported() {
    let full = "<data key=\"abc\" other=\"42\"></data>";
    let without_key = "<data other=\"42\"></data>";
    let without_other = "<data key=\"abc\"></data>";
    assert!(parse_data(full).is_ok());
    match parse_data(without_key) {
        Err(Error::MissingAttribute { key }) => assert_eq!(key, "key"),
        r => panic!("expected a missing attribute error, got {:?}", r),
    }
    match parse_data(without_other) {
        Err(Error::MissingAttribute { key }) => assert_eq!(key, "other"),
        r => panic!("expected a missing attribute error, got {:?}", r),
    }
}

#[test]
fn unknown_attribute_fails_without_ignore_policy() {
    let input = "<data key=\"abc\" other=\"42\" bogus=\"1\"></data>";
    match parse_data(input) {
        Err(Error::UnexpectedAttribute { key }) => assert_eq!(key, "bogus"),
        r => panic!("expected an unexpected attribute error, got {:?}", r),
    }
}

#[test]
fn unknown_attribute_dropped_with_ignore_policy() {
    let mut p = Parser::new("<foo bogus=\"1\"/>");
    assert_eq!(p.parse_document::<Foo>().unwrap(), Foo);
}

#[test]
fn duplicate_known_attribute_is_unexpected() {
    // The first occurrence fills the slot; the second matches no empty
    // field and data does not ignore unknown attributes.
    let input = "<data key=\"abc\" key=\"def\" other=\"42\"></data>";
    assert!(parse_data(input).is_err());
}

#[test]
fn optional_attribute_absent_parses_to_none() {
    let mut p = Parser::new("<Example/>");
    assert_eq!(p.parse_document::<Example>().unwrap(), Example { attr1: None });
}

#[test]
fn optional_attribute_present_is_kept() {
    let mut p = Parser::new("<Example attr1=\"a&amp;b\"/>");
    assert_eq!(
        p.parse_document::<Example>().unwrap(),
        Example { attr1: Some(String::from("a&b")) },
    );
}

#[test]
fn absent_optional_attribute_is_omitted_on_serialize() {
    assert_eq!(
        serialize_document(&Example { attr1: None }).unwrap(),
        "<?xml version=\"1.1\" encoding=\"utf-8\"?><Example/>",
    );
    assert_eq!(
        serialize_document(&Example { attr1: Some(String::from("v")) }).unwrap(),
        "<?xml version=\"1.1\" encoding=\"utf-8\"?><Example attr1=\"v\"/>",
    );
}

#[test]
fn list_children_zero_one_many() {
    let mut p = Parser::new("<items/>");
    assert_eq!(p.parse_document::<Items>().unwrap(), Items { items: vec![] });
    let mut p = Parser::new("<items><foo/></items>");
    assert_eq!(p.parse_document::<Items>().unwrap(), Items { items: vec![Foo] });
    let mut p = Parser::new("<items><foo/><foo/><foo/></items>");
    assert_eq!(p.parse_document::<Items>().unwrap(), Items { items: vec![Foo, Foo, Foo] });
}

#[test]
fn list_children_preserve_order() {
    let input = "<gallery><Example attr1=\"a\"/><Example/><Example attr1=\"c\"/></gallery>";
    let mut p = Parser::new(input);
    let g = p.parse_document::<Gallery>().unwrap();
    assert_eq!(
        g,
        Gallery {
            entries: vec![
                Example { attr1: Some(String::from("a")) },
                Example { attr1: None },
                Example { attr1: Some(String::from("c")) },
            ],
        },
    );
    let text = serialize_document(&g).unwrap();
    assert_eq!(
        text,
        "<?xml version=\"1.1\" encoding=\"utf-8\"?><gallery><Example attr1=\"a\"/><Example/><Example attr1=\"c\"/></gallery>",
    );
}

#[test]
fn first_declared_field_claims_ambiguous_child() {
    let mut p = Parser::new("<twin><foo/></twin>");
    assert_eq!(
        p.parse_document::<Twin>().unwrap(),
        Twin { first: Some(Foo), second: None },
    );
    let mut p = Parser::new("<twin><foo/><foo/></twin>");
    assert_eq!(
        p.parse_document::<Twin>().unwrap(),
        Twin { first: Some(Foo), second: Some(Foo) },
    );
}

#[test]
fn missing_required_element_is_reported() {
    let mut p = Parser::new("<pair></pair>");
    match p.parse_document::<Pair>() {
        Err(Error::MissingElement { tag }) => assert_eq!(tag, "foo"),
        r => panic!("expected a missing element error, got {:?}", r),
    }
    let mut p = Parser::new("<pair><foo/></pair>");
    assert_eq!(p.parse_document::<Pair>().unwrap(), Pair { foo: Foo });
}

#[test]
fn optional_inner_group_absent_and_present() {
    let mut p = Parser::new("<outer/>");
    assert_eq!(p.parse_document::<Outer>().unwrap(), Outer { body: None });
    let mut p = Parser::new("<outer>text</outer>");
    assert_eq!(
        p.parse_document::<Outer>().unwrap(),
        Outer { body: Some(DataInner { foo2: None, content: String::from("text") }) },
    );
    let mut p = Parser::new("<outer><foo/>text</outer>");
    assert_eq!(
        p.parse_document::<Outer>().unwrap(),
        Outer { body: Some(DataInner { foo2: Some(Foo), content: String::from("text") }) },
    );
}

#[test]
fn text_runs_concatenate_in_document_order() {
    let mut p = Parser::new("<data key=\"k\" other=\"1\">ab<foo/>cd</data>");
    let d = p.parse_document::<Data>().unwrap();
    assert_eq!(d.inner.content, "abcd");
    assert_eq!(d.foo1, Some(Foo));
}

#[test]
fn unexpected_child_element_is_reported() {
    let input = "<data key=\"abc\" other=\"42\"><nope/></data>";
    match parse_data(input) {
        Err(Error::UnexpectedElement { tag }) => assert_eq!(tag, "nope"),
        r => panic!("expected an unexpected element error, got {:?}", r),
    }
}

#[test]
fn unexpected_text_is_reported() {
    let mut p = Parser::new("<Example>not whitespace</Example>");
    match p.parse_document::<Example>() {
        Err(Error::UnexpectedText) => {}
        r => panic!("expected an unexpected text error, got {:?}", r),
    }
}

#[test]
fn whitespace_text_is_tolerated() {
    let mut p = Parser::new("<Example> \n\t </Example>");
    assert_eq!(p.parse_document::<Example>().unwrap(), Example { attr1: None });
}

#[test]
fn invalid_number_is_reported() {
    match parse_data("<data key=\"k\" other=\"abc\"/>") {
        Err(Error::InvalidValue { .. }) => {}
        r => panic!("expected an invalid value error, got {:?}", r),
    }
    match parse_data("<data key=\"k\" other=\"4294967296\"/>") {
        Err(Error::InvalidValue { .. }) => {}
        r => panic!("expected an invalid value error, got {:?}", r),
    }
}

#[test]
fn document_level_rules() {
    // Empty document.
    match parse_data("") {
        Err(Error::UnexpectedEof { .. }) => {}
        r => panic!("expected an unexpected eof error, got {:?}", r),
    }
    // A stray end tag: the engine itself rejects a closing tag that
    // matches no open element; ours would otherwise.
    match parse_data("</data>") {
        Err(Error::UnexpectedEnd) | Err(Error::Xml { .. }) => {}
        r => panic!("expected an error for the stray end tag, got {:?}", r),
    }
    // Processing instructions are not supported.
    match parse_data("<?pi data?><data key=\"k\" other=\"1\"/>") {
        Err(Error::UnexpectedPi) => {}
        r => panic!("expected an unexpected pi error, got {:?}", r),
    }
    // Non-whitespace text at document level.
    match parse_data("stray<data key=\"k\" other=\"1\"/>") {
        Err(Error::UnexpectedText) => {}
        r => panic!("expected an unexpected text error, got {:?}", r),
    }
    // A declaration after the root element.
    match parse_data("<data key=\"k\" other=\"1\"/><?xml version=\"1.0\"?>") {
        Err(Error::UnexpectedDecl) => {}
        r => panic!("expected an unexpected decl error, got {:?}", r),
    }
    // A second root element.
    match parse_data("<data key=\"k\" other=\"1\"/><data key=\"k\" other=\"1\"/>") {
        Err(Error::UnexpectedElement { tag }) => assert_eq!(tag, "data"),
        r => panic!("expected an unexpected element error, got {:?}", r),
    }
    // Non-whitespace text after the root element.
    match parse_data("<data key=\"k\" other=\"1\"/>junk") {
        Err(Error::UnexpectedText) => {}
        r => panic!("expected an unexpected text error, got {:?}", r),
    }
    // Comments and whitespace after the root element are fine.
    assert!(parse_data("<data key=\"k\" other=\"1\"/> <!-- done --> ").is_ok());
    // An unclosed element.
    match parse_data("<data key=\"k\" other=\"1\">") {
        Err(e) => {
            let m = e.message();
            assert!(
                m.contains("eof") || m.contains("XML error"),
                "unexpected message: {}",
                m,
            );
        }
        r => panic!("expected an error, got {:?}", r),
    }
}

#[test]
fn comments_and_doctype_before_root_are_ignored() {
    let input = "<!DOCTYPE data><!-- note --><data key=\"k\" other=\"7\"/>";
    let d = parse_data(input).unwrap();
    assert_eq!(d.other, 7);
}

#[test]
fn escaped_content_round_trips() {
    let value = Data {
        key: String::from("a\"b<c>d&e"),
        other: 0,
        foo1: None,
        inner: DataInner { foo2: None, content: String::from("x<y>&\"z") },
    };
    let text = serialize_document(&value).unwrap();
    assert_eq!(parse_data(&text).unwrap(), value);
}

#[test]
fn cdata_is_taken_as_text() {
    let mut p = Parser::new("<data key=\"k\" other=\"1\"><![CDATA[a<b&c]]></data>");
    let d = p.parse_document::<Data>().unwrap();
    assert_eq!(d.inner.content, "a<b&c");
}
