use layered_config::rest_xml_unwrapped_errors::{
    body_is_error, collect_error_metadata, error_scope, parse_error_metadata, ErrorMetadata,
    XmlChild, XmlError,
};

#[test]
fn parse_unwrapped_error() {
    let xml = br#"<Error>
    <Type>Sender</Type>
    <Code>InvalidGreeting</Code>
    <Message>Hi</Message>
    <AnotherSetting>setting</AnotherSetting>
    <RequestId>foo-id</RequestId>
</Error>"#;
    assert!(body_is_error(xml).unwrap());
    let parsed = parse_error_metadata(xml).expect("valid xml");
    assert_eq!(parsed.message.as_deref(), Some("Hi"));
    assert_eq!(parsed.code.as_deref(), Some("InvalidGreeting"));
}

#[test]
fn other_roots_are_no_errors() {
    let xml = b"<Response><Code>Fine</Code></Response>";
    assert!(!body_is_error(xml).unwrap());
    assert!(matches!(error_scope(xml), Err(XmlError::ExpectedErrorAsRoot)));
    // the metadata is read whatever the root is called
    assert_eq!(
        parse_error_metadata(xml).unwrap(),
        ErrorMetadata { code: Some("Fine".to_string()), message: None }
    );
}

#[test]
fn bodies_without_a_root_are_decode_errors() {
    assert!(matches!(body_is_error(b""), Err(XmlError::Decode(_))));
    assert!(matches!(body_is_error(&[0xff, 0xfe]), Err(XmlError::Decode(_))));
    assert!(matches!(error_scope(b""), Err(XmlError::Decode(_))));
    assert!(matches!(parse_error_metadata(b"no xml"), Err(XmlError::Decode(_))));
}

#[test]
fn error_scope_hands_out_the_children() {
    let xml = b"<Error><Code>A</Code><Detail><Nested/></Detail><Message>B &amp; C</Message></Error>";
    let children = error_scope(xml).unwrap();
    let names: Vec<&str> = children.iter().map(|child| child.name.as_str()).collect();
    assert_eq!(names, vec!["Code", "Detail", "Message"]);
    assert_eq!(children[0].data.as_deref().ok(), Some("A"));
    assert!(children[1].data.is_err());
    assert_eq!(children[2].data.as_deref().ok(), Some("B & C"));
    // an element that is neither the code nor the message may hold anything
    assert_eq!(
        parse_error_metadata(xml).unwrap(),
        ErrorMetadata { code: Some("A".to_string()), message: Some("B & C".to_string()) }
    );
}

#[test]
fn the_last_code_and_message_count() {
    let xml = b"<Error><Code>first</Code><Message>one</Message><Code>second</Code></Error>";
    assert_eq!(
        parse_error_metadata(xml).unwrap(),
        ErrorMetadata { code: Some("second".to_string()), message: Some("one".to_string()) }
    );
    let child = |name: &str, text: &str| XmlChild { name: name.to_string(), data: Ok(text.to_string()) };
    assert_eq!(
        collect_error_metadata(vec![child("Message", "a"), child("code", "x"), child("Message", "b")])
            .unwrap(),
        ErrorMetadata { code: None, message: Some("b".to_string()) }
    );
    assert_eq!(
        collect_error_metadata(vec![]).unwrap(),
        ErrorMetadata { code: None, message: None }
    );
}

#[test]
fn a_code_that_is_not_text_fails() {
    let xml = b"<Error><Code><Nested>x</Nested></Code><Message>Hi</Message></Error>";
    assert!(matches!(parse_error_metadata(xml), Err(XmlError::Decode(_))));
    assert!(body_is_error(xml).unwrap());
}
