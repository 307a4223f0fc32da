use async_xml::error::Error;
use async_xml::from_str;
use async_xml::samples::{flatten, from, newtype_custom, report, report_option, report_vec, xml_vec, xml_vec_derive};
use async_xml::util::XmlVec;

#[test]
fn test_test_missing() {
    let xml = r#"<report id="a"></report>"#;
    let de: report::Report = from_str(xml).unwrap();
    assert_eq!(de, report::Report { id: "a".to_string(), data: None });
}

#[test]
fn test_test_empty() {
    let xml = r#"<report id="a"><data /></report>"#;
    let de: report::Report = from_str(xml).unwrap();
    assert_eq!(de, report::Report { id: "a".to_string(), data: None });
}

#[test]
fn test_test_full() {
    let xml = r#"<report id="a"><data>test</data></report>"#;
    let de: report::Report = from_str(xml).unwrap();
    assert_eq!(
        de,
        report::Report {
            id: "a".to_string(),
            data: Some(report::ReportData { data: "test".to_string() }),
        }
    );
}

#[test]
fn report_test_missing() {
    let xml = r#"<report id="a"></report>"#;
    let de: report::Report = from_str(xml).unwrap();
    assert_eq!(de, report::Report { id: "a".to_string(), data: None });
}

#[test]
fn report_test_empty() {
    let xml = r#"<report id="a"><data /></report>"#;
    let de: report::Report = from_str(xml).unwrap();
    assert_eq!(de, report::Report { id: "a".to_string(), data: None });
}

#[test]
fn report_test_full() {
    let xml = r#"<report id="a"><data>test</data></report>"#;
    let de: report::Report = from_str(xml).unwrap();
    assert_eq!(
        de,
        report::Report {
            id: "a".to_string(),
            data: Some(report::ReportData { data: "test".to_string() }),
        }
    );
}

#[test]
fn newtype_custom_test() {
    let xml = r#"<report id="a">text</report>"#;
    let de: newtype_custom::Report = from_str(xml).unwrap();
    let expected = newtype_custom::Report { id: newtype_custom::Id("a".into()), data: "text".into() };
    assert_eq!(de, expected);
}

#[test]
#[should_panic]
fn newtype_custom_test_invalid() {
    let xml = r#"<report id="">text</report>"#;
    let _: newtype_custom::Report = from_str(xml).unwrap();
}

#[test]
fn newtype_custom_invalid_is_a_deserialization_error() {
    let xml = r#"<report id="">text</report>"#;
    let r: Result<newtype_custom::Report, Error> = from_str(xml);
    assert!(matches!(r, Err(Error::Deserialization(message)) if message == "Invalid"));
    assert_eq!(newtype_custom::IdFromStrError::Invalid.message(), "Invalid");
}

#[test]
fn test_xml_vec() {
    let xml = r#"<report><ids>2 4 6 7</ids></report>"#;
    let de: xml_vec::Report = from_str(xml).unwrap();
    let expected = xml_vec::Report { data: vec![2, 4, 6, 7].into() };
    assert_eq!(de, expected);
    assert_eq!(de.data.as_vec(), &vec![2, 4, 6, 7]);
    let items: Vec<u32> = de.data.into();
    assert_eq!(items, vec![2, 4, 6, 7]);
    assert_eq!(XmlVec::new(vec![1u8]).into_vec(), vec![1u8]);
}

#[test]
fn xml_vec_derive_test_xml_vec_derive() {
    let xml = r#"<report><ids>2 4 6 7</ids></report>"#;
    let de: xml_vec_derive::Report = from_str(xml).unwrap();
    let expected = xml_vec_derive::Report { data: vec![2, 4, 6, 7].into() };
    assert_eq!(de, expected);
}

#[test]
fn test_from() {
    let xml = r#"<report id="3" />"#;
    let de: from::Report = from_str(xml).unwrap();
    assert_eq!(de, from::Report { id: 3 });
}

#[test]
fn from_without_id_is_zero() {
    let de: from::Report = from_str(r#"<report name="x" />"#).unwrap();
    assert_eq!(de, from::Report { id: 0 });
}

#[test]
fn test_try_from() {
    let xml = r#"<report id="3" />"#;
    let de: from::ReportTry = from_str(xml).unwrap();
    assert_eq!(de, from::ReportTry { id: 3 });
}

#[test]
#[should_panic]
fn test_try_from_panic() {
    let xml = r#"<report id="5" />"#;
    let _: from::ReportTry = from_str(xml).unwrap();
}

#[test]
fn try_from_failure_is_a_deserialization_error() {
    let r: Result<from::ReportTry, Error> = from_str(r#"<report id="5" />"#);
    assert!(matches!(r, Err(Error::Deserialization(message)) if message == "error converting: invalid num: 5"));
    let r: Result<from::ReportTry, Error> = from_str(r#"<report />"#);
    assert!(matches!(r, Err(Error::Deserialization(message)) if message == "error converting: missing attribute id"));
    let r: Result<from::ReportTry, Error> = from_str(r#"<report id="x" />"#);
    assert!(matches!(r, Err(Error::Deserialization(message)) if message == "error converting: invalid digit found in string"));
}

#[test]
fn unknown_attribute_is_unexpected() {
    let r: Result<report_option::Report, Error> = from_str(r#"<report foo="x"></report>"#);
    assert!(matches!(r, Err(Error::UnexpectedAttribute(name)) if name == "foo"));
}

#[test]
fn unknown_child_is_unexpected() {
    let r: Result<report_option::Report, Error> = from_str(r#"<report id="a"><foo/></report>"#);
    assert!(matches!(r, Err(Error::UnexpectedChild(name)) if name == "foo"));
}

#[test]
fn unknown_text_is_unexpected() {
    let r: Result<report_option::Report, Error> = from_str(r#"<report id="a">text</report>"#);
    assert!(matches!(r, Err(Error::UnexpectedText)));
}

#[test]
fn missing_attribute_is_reported_with_its_name() {
    let r: Result<report_option::Report, Error> = from_str(r#"<report></report>"#);
    assert!(matches!(r, Err(Error::MissingAttribute(name)) if name == "id"));
}

#[test]
fn missing_child_is_reported_with_its_name() {
    let r: Result<flatten::Response, Error> = from_str(r#"<response status="ok"></response>"#);
    assert!(matches!(r, Err(Error::MissingChild(name)) if name == "data"));
}

#[test]
fn missing_text_is_reported() {
    let r: Result<flatten::Response, Error> = from_str(r#"<response status="ok"><data/></response>"#);
    assert!(matches!(r, Err(Error::MissingText)));
}

#[test]
fn second_child_is_double_child() {
    let xml = r#"<report id="a"><data>x</data><data>y</data></report>"#;
    let r: Result<report_option::Report, Error> = from_str(xml);
    assert!(matches!(r, Err(Error::DoubleChild(name)) if name == "data"));
}

#[test]
fn second_text_is_double_text() {
    let xml = r#"<report id="a"><data>x<!-- c -->y</data></report>"#;
    let r: Result<report_option::Report, Error> = from_str(xml);
    assert!(matches!(r, Err(Error::DoubleText)));
}

#[test]
fn wrong_start_names_both_tags() {
    let r: Result<report_option::Report, Error> = from_str(r#"<other id="a"></other>"#);
    assert!(matches!(r, Err(Error::WrongStart(expected, found)) if expected == "report" && found == "other"));
}

#[test]
fn report_of_any_tag_is_decoded() {
    let de: report::Report = from_str(r#"<anything id="a"><data>test</data></anything>"#).unwrap();
    assert_eq!(de.id, "a");
    assert_eq!(de.data, Some(report::ReportData { data: "test".to_string() }));
}

#[test]
fn end_of_input_inside_an_element_is_missing_end() {
    let r: Result<report_option::Report, Error> = from_str(r#"<report id="a">"#);
    assert!(matches!(r, Err(Error::MissingEnd(name)) if name == "report"));
    let r: Result<report_option::Report, Error> = from_str("");
    assert!(matches!(r, Err(Error::MissingStart)));
}

#[test]
fn mismatched_end_is_an_error_of_the_tokenizer() {
    let r: Result<report_option::Report, Error> = from_str(r#"<report id="a"></other>"#);
    assert!(matches!(r, Err(Error::Xml(_))));
}

#[test]
fn entity_references_are_resolved() {
    let xml = r#"<report id="a&amp;b"><data>x &lt; y &#33;</data></report>"#;
    let de: report_option::Report = from_str(xml).unwrap();
    assert_eq!(de.id, "a&b");
    assert_eq!(de.data, Some(report_option::ReportData { data: "x < y !".into() }));
}

#[test]
fn unknown_entity_is_an_error_of_the_tokenizer() {
    let r: Result<report_option::Report, Error> = from_str(r#"<report id="&bogus;"></report>"#);
    assert!(matches!(r, Err(Error::Xml(_))));
    let r: Result<report_option::Report, Error> = from_str(r#"<report id="a"><data>&bogus;</data></report>"#);
    assert!(matches!(r, Err(Error::Xml(_))));
}

#[test]
fn malformed_attribute_fails_after_the_attributes_before_it() {
    let r: Result<report_option::Report, Error> = from_str(r#"<report id="a" id="b"></report>"#);
    assert!(matches!(r, Err(Error::Xml(_))));
    let r: Result<report_option::Report, Error> = from_str(r#"<report foo="a" id=b></report>"#);
    assert!(matches!(r, Err(Error::UnexpectedAttribute(name)) if name == "foo"));
}

#[test]
fn repeated_children_come_in_document_order() {
    let none: report_vec::Report = from_str(r#"<report id="b"></report>"#).unwrap();
    assert_eq!(none.data.len(), 0);
    let one: report_vec::Report = from_str(r#"<report id="b"><data id="1">x</data></report>"#).unwrap();
    assert_eq!(one.data.len(), 1);
    let many: report_vec::Report =
        from_str(r#"<report id="b"><data id="1"/><data id="2"/><data id="3"/></report>"#).unwrap();
    let ids: Vec<&str> = many.data.iter().map(|d| d.id.as_str()).collect();
    assert_eq!(ids, vec!["1", "2", "3"]);
}

#[test]
fn messages_name_what_went_wrong() {
    assert_eq!(Error::WrongStart("a".into(), "b".into()).message(), "Expected start element <a>, found <b>");
    assert_eq!(Error::WrongEnd("a".into(), "b".into()).message(), "Expected end element </a>, found </b>");
    assert_eq!(Error::MissingStart.message(), "Missing start element");
    assert_eq!(Error::MissingEnd("a".into()).message(), "Missing end element </a>");
    assert_eq!(Error::MissingAttribute("id".into()).message(), "Missing attribute id");
    assert_eq!(Error::MissingChild("data".into()).message(), "Missing child <data>");
    assert_eq!(Error::MissingText.message(), "Missing element text");
    assert_eq!(
        Error::DoubleChild("data".into()).message(),
        "Found multiple child elements <data>, but only expected one"
    );
    assert_eq!(Error::DoubleText.message(), "Element contains multiple text events");
    assert_eq!(Error::UnexpectedAttribute("foo".into()).message(), "Found unexpected attribute foo");
    assert_eq!(Error::UnexpectedChild("foo".into()).message(), "Found unexpected child element <foo>");
    assert_eq!(Error::UnexpectedText.message(), "Found unexpected text");
    assert_eq!(Error::Deserialization("m".into()).message(), "Deserialization error: m");
    let r: Result<report_option::Report, Error> = from_str(r#"<report id="a"></b>"#);
    let message = r.unwrap_err().message();
    assert!(message.starts_with("Failed to parse XML: "));
    assert!(message.len() > "Failed to parse XML: ".len());
}

#[test]
fn tokenizer_error_converts_into_error() {
    let error = quick_xml::Error::TextNotFound;
    assert!(matches!(Error::from(error), Error::Xml(quick_xml::Error::TextNotFound)));
}
