use async_xml::error::Error;
use async_xml::event::{Event, RawAttribute};
use async_xml::fields::{decode_text, Attr, Child, Children, NoFields, Required, Text};
use async_xml::from_str;
use async_xml::impls::{
    reject_attribute, reject_child, reject_text, FromStringVisitor, FromVisitor, OptionalVisitor,
    TryFromVisitor,
};
use async_xml::lenient::{AllowUnknownAttributes, AllowUnknownChildren, AllowUnknownText};
use async_xml::merge::Merged;
use async_xml::reader::{visit_attributes, PeekingReader};
use async_xml::samples::labels::{DataName, IdName};
use async_xml::samples::{discard, flatten, flatten_option, from, report_option};
use async_xml::source::EventSource;
use async_xml::util::{DiscardErrorVisitor, XmlNode, XmlVec};
use async_xml::visitor::{FromXml, Visitor};

type StatusVisitor = <flatten_option::ResponseStatus as FromXml>::Visitor;

fn child_events(name: &str, content: &str) -> PeekingReader {
    let events = vec![
        Event::Start { name: name.to_string(), attributes: vec![], malformed: None },
        Event::Text { content: content.to_string() },
        Event::End { name: name.to_string() },
        Event::Other,
    ];
    PeekingReader::new(EventSource::from_events(events))
}

#[test]
fn defaults_reject() {
    assert!(matches!(reject_attribute("a"), Err(Error::UnexpectedAttribute(name)) if name == "a"));
    assert!(matches!(reject_child("c"), Err(Error::UnexpectedChild(name)) if name == "c"));
    assert!(matches!(reject_text(), Err(Error::UnexpectedText)));
    let mut nothing = NoFields::fresh();
    assert!(nothing.visit_tag("any").is_ok());
    assert!(matches!(nothing.visit_attribute("a", "1"), Err(Error::UnexpectedAttribute(name)) if name == "a"));
    assert!(matches!(nothing.visit_text("t"), Err(Error::UnexpectedText)));
    let mut reader = child_events("c", "x");
    assert!(matches!(nothing.visit_child("c", &mut reader), Err(Error::UnexpectedChild(name)) if name == "c"));
    assert_eq!(reader.remaining(), 4);
    assert!(nothing.build().is_ok());
}

#[test]
fn leaf_takes_one_text() {
    let mut leaf = FromStringVisitor::<u32>::fresh();
    assert!(FromStringVisitor::<u32>::start_name().is_none());
    assert!(leaf.visit_text("12").is_ok());
    assert!(matches!(leaf.visit_text("13"), Err(Error::DoubleText)));
    assert_eq!(leaf.build().unwrap(), 12);
    let empty = FromStringVisitor::<u32>::fresh();
    assert!(matches!(empty.build(), Err(Error::MissingText)));
    let mut bad = FromStringVisitor::<u32>::fresh();
    assert!(matches!(bad.visit_text("x"), Err(Error::Deserialization(message)) if message == "invalid digit found in string"));
    assert!(matches!(bad.visit_attribute("a", "1"), Err(Error::UnexpectedAttribute(name)) if name == "a"));
}

#[test]
fn optional_is_absent_when_untouched() {
    let untouched = OptionalVisitor::<flatten_option::ResponseStatus>::fresh();
    assert_eq!(untouched.build().unwrap(), None);
}

#[test]
fn optional_is_present_when_complete() {
    let mut complete = OptionalVisitor::<flatten_option::ResponseStatus>::fresh();
    assert!(complete.visit_attribute("status", "ok").is_ok());
    let mut reader = child_events("status_text", "fine");
    assert!(complete.visit_child("status_text", &mut reader).is_ok());
    assert_eq!(reader.remaining(), 1);
    assert_eq!(
        complete.build().unwrap(),
        Some(flatten_option::ResponseStatus { status: "ok".into(), status_text: "fine".into() })
    );
}

#[test]
fn optional_fails_when_touched_and_incomplete() {
    let mut partial = OptionalVisitor::<flatten_option::ResponseStatus>::fresh();
    assert!(partial.visit_attribute("status", "ok").is_ok());
    assert!(matches!(partial.build(), Err(Error::MissingChild(name)) if name == "status_text"));
    let mut rejected = OptionalVisitor::<flatten_option::ResponseStatus>::fresh();
    assert!(matches!(rejected.visit_attribute("foo", "x"), Err(Error::UnexpectedAttribute(name)) if name == "foo"));
    assert!(matches!(rejected.build(), Err(Error::MissingAttribute(name)) if name == "status"));
}

#[test]
fn optional_child_with_unknown_content_fails() {
    let r: Result<report_option::Report, Error> = from_str(r#"<report id="b"><data><x/></data></report>"#);
    assert!(matches!(r, Err(Error::UnexpectedChild(name)) if name == "x"));
}

#[test]
fn discard_gives_none_for_every_build_error() {
    let mut partial = DiscardErrorVisitor::<StatusVisitor>::fresh();
    assert!(partial.visit_attribute("status", "ok").is_ok());
    assert_eq!(partial.build().unwrap(), None);
    let untouched = DiscardErrorVisitor::<StatusVisitor>::fresh();
    assert_eq!(untouched.build().unwrap(), None);
    let mut rejected = DiscardErrorVisitor::<StatusVisitor>::fresh();
    assert!(matches!(rejected.visit_attribute("foo", "x"), Err(Error::UnexpectedAttribute(_))));
}

#[test]
fn merged_offers_in_order() {
    type Both = Merged<Required<Attr<IdName, String>>, XmlNode>;
    let mut both = Both::fresh();
    assert!(both.visit_tag("t").is_ok());
    assert!(both.visit_attribute("id", "a").is_ok());
    assert!(both.visit_attribute("other", "b").is_ok());
    assert!(both.visit_text("text").is_ok());
    let (id, node) = both.build().unwrap();
    assert_eq!(id, "a");
    assert_eq!(node.name, "t");
    assert_eq!(node.attributes.len(), 1);
    assert_eq!(node.attributes[0].name, "other");
    assert_eq!(node.text, Some("text".to_string()));
}

#[test]
fn merged_stops_at_the_first_claim() {
    type Both = Merged<Required<Attr<IdName, u32>>, XmlNode>;
    let mut both = Both::fresh();
    assert!(matches!(both.visit_attribute("id", "x"), Err(Error::Deserialization(_))));
    assert!(both.visit_attribute("id", "7").is_ok());
    let (id, node) = both.build().unwrap();
    assert_eq!(id, 7);
    assert_eq!(node.attributes.len(), 0);
}

#[test]
fn merged_child_goes_to_one_candidate() {
    type Both = Merged<Child<DataName, String>, XmlNode>;
    let mut both = Both::fresh();
    let mut reader = child_events("data", "x");
    assert!(both.visit_child("data", &mut reader).is_ok());
    assert_eq!(reader.remaining(), 1);
    let mut reader = child_events("other", "y");
    assert!(both.visit_child("other", &mut reader).is_ok());
    assert_eq!(reader.remaining(), 1);
    let (data, node) = both.build().unwrap();
    assert_eq!(data, Some("x".to_string()));
    assert_eq!(node.children.len(), 1);
    assert_eq!(node.children[0].name, "other");
}

#[test]
fn merged_rejection_inside_a_claimed_child_is_final() {
    let xml = r#"<response status="ok"><data><x/></data></response>"#;
    let r: Result<flatten::Response, Error> = from_str(xml);
    assert!(matches!(r, Err(Error::UnexpectedChild(name)) if name == "x"));
}

#[test]
fn merged_rejects_what_no_candidate_takes() {
    let r: Result<flatten::Response, Error> = from_str(r#"<response status="ok" foo="1"><data>t</data></response>"#);
    assert!(matches!(r, Err(Error::UnexpectedAttribute(name)) if name == "foo"));
    let r: Result<flatten::Response, Error> = from_str(r#"<response status="ok"><data>t</data><foo/></response>"#);
    assert!(matches!(r, Err(Error::UnexpectedChild(name)) if name == "foo"));
}

#[test]
fn children_append_in_order() {
    let mut list = Children::<DataName, u32>::fresh();
    for content in ["1", "2", "3"] {
        let mut reader = child_events("data", content);
        assert!(list.visit_child("data", &mut reader).is_ok());
        assert_eq!(reader.remaining(), 1);
    }
    let mut reader = child_events("other", "4");
    assert!(matches!(list.visit_child("other", &mut reader), Err(Error::UnexpectedChild(name)) if name == "other"));
    assert_eq!(reader.remaining(), 4);
    assert_eq!(list.build().unwrap(), vec![1, 2, 3]);
}

#[test]
fn text_field_keeps_one_text() {
    let mut field = Text::<u32>::fresh();
    assert!(field.visit_text("1").is_ok());
    assert!(matches!(field.visit_text("2"), Err(Error::DoubleText)));
    assert!(matches!(field.visit_text("x"), Err(Error::Deserialization(_))));
    assert_eq!(decode_text::<u32>("17").unwrap(), 17);
    assert!(matches!(decode_text::<u32>(""), Err(Error::Deserialization(_))));
}

#[test]
fn attributes_are_visited_in_order_until_one_fails() {
    let attributes = vec![
        RawAttribute { name: "a".into(), value: "1 &amp; 2".into() },
        RawAttribute { name: "b".into(), value: "&broken".into() },
        RawAttribute { name: "c".into(), value: "3".into() },
    ];
    let mut node = XmlNode::new();
    assert!(matches!(visit_attributes(&mut node, &attributes), Err(Error::Xml(_))));
    assert_eq!(node.attributes.len(), 1);
    assert_eq!(node.attributes[0].name, "a");
    assert_eq!(node.attributes[0].value, "1 & 2");
}

#[test]
fn lenient_visitors_let_unknowns_pass() {
    let mut attributes = AllowUnknownAttributes::<Required<Attr<IdName, u32>>>::fresh();
    assert!(attributes.visit_attribute("foo", "x").is_ok());
    assert!(matches!(attributes.visit_attribute("id", "x"), Err(Error::Deserialization(_))));
    assert!(attributes.visit_attribute("id", "3").is_ok());
    assert_eq!(attributes.build().unwrap(), 3);
    let mut children = AllowUnknownChildren::<Child<DataName, u32>>::fresh();
    let mut reader = child_events("foo", "x");
    assert!(children.visit_child("foo", &mut reader).is_ok());
    assert_eq!(reader.remaining(), 1);
    let mut reader = child_events("data", "5");
    assert!(children.visit_child("data", &mut reader).is_ok());
    assert_eq!(children.build().unwrap(), Some(5));
}

#[test]
fn skipped_children_may_hold_malformed_attributes() {
    let xml = r#"<test>text<child a=1><x b="1" b="2"/></child></test>"#;
    let de: discard::TestChildren = from_str(xml).unwrap();
    assert_eq!(de, discard::TestChildren { text: "text".into() });
}

#[test]
fn projection_converts_what_the_inner_visitor_builds() {
    type Numbers = FromVisitor<Vec<u32>, FromStringVisitor<XmlVec<u32>>>;
    assert!(Numbers::start_name().is_none());
    let mut numbers = Numbers::fresh();
    assert!(numbers.visit_tag("any").is_ok());
    assert!(numbers.visit_text("1 2 3").is_ok());
    assert_eq!(numbers.build().unwrap(), vec![1, 2, 3]);
    let empty = Numbers::fresh();
    assert!(matches!(empty.build(), Err(Error::MissingText)));
}

#[test]
fn fallible_projection_reports_the_conversion() {
    type Checked = TryFromVisitor<from::ReportTry, XmlNode>;
    let mut refused = Checked::fresh();
    assert!(refused.visit_attribute("id", "5").is_ok());
    assert!(matches!(refused.build(), Err(Error::Deserialization(message)) if message == "error converting: invalid num: 5"));
    let mut accepted = Checked::fresh();
    assert!(accepted.visit_attribute("id", "6").is_ok());
    assert_eq!(accepted.build().unwrap(), from::ReportTry { id: 6 });
}

#[test]
fn unknown_text_passes_where_it_is_allowed() {
    let mut strict = Required::<Attr<IdName, u32>>::fresh();
    assert!(matches!(strict.visit_text("note"), Err(Error::UnexpectedText)));
    let mut lenient = AllowUnknownText::<Required<Attr<IdName, u32>>>::fresh();
    assert!(lenient.visit_text("note").is_ok());
    assert!(lenient.visit_text("more").is_ok());
    assert!(matches!(lenient.visit_attribute("foo", "1"), Err(Error::UnexpectedAttribute(_))));
    assert!(lenient.visit_attribute("id", "4").is_ok());
    assert_eq!(lenient.build().unwrap(), 4);
    let mut leaf = AllowUnknownText::<FromStringVisitor<u32>>::fresh();
    assert!(leaf.visit_text("1").is_ok());
    assert!(matches!(leaf.visit_text("2"), Err(Error::DoubleText)));
    assert!(matches!(leaf.visit_text("x"), Err(Error::DoubleText)));
}

#[test]
fn merged_optional_candidate_is_strict() {
    type Both = Merged<Required<Attr<IdName, u32>>, OptionalVisitor<flatten_option::ResponseStatus>>;
    let mut untouched = Both::fresh();
    assert!(untouched.visit_attribute("id", "1").is_ok());
    assert_eq!(untouched.build().unwrap(), (1, None));
    let mut partial = Both::fresh();
    assert!(partial.visit_attribute("id", "1").is_ok());
    assert!(partial.visit_attribute("status", "ok").is_ok());
    assert!(matches!(partial.build(), Err(Error::MissingChild(name)) if name == "status_text"));
}
