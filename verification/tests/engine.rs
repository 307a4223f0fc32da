use async_xml::error::Error;
use async_xml::from_source;
use async_xml::event::{Event, RawAttribute};
use async_xml::reader::PeekingReader;
use async_xml::samples::report_option::{Report, ReportData};
use async_xml::source::EventSource;
use async_xml::util::{XmlAttribute, XmlNode};

fn start(name: &str) -> Event {
    Event::Start { name: name.to_string(), attributes: vec![], malformed: None }
}

fn start_with(name: &str, key: &str, value: &str) -> Event {
    let attribute = RawAttribute { name: key.to_string(), value: value.to_string() };
    Event::Start { name: name.to_string(), attributes: vec![attribute], malformed: None }
}

fn end(name: &str) -> Event {
    Event::End { name: name.to_string() }
}

fn text(content: &str) -> Event {
    Event::Text { content: content.to_string() }
}

fn reader(events: Vec<Event>) -> PeekingReader {
    PeekingReader::new(EventSource::from_events(events))
}

#[test]
fn peek_does_not_consume() {
    let mut reader = reader(vec![text("a"), text("b")]);
    assert!(matches!(reader.peek_event(), Ok(Some(Event::Text { content })) if content == "a"));
    assert!(matches!(reader.peek_event(), Ok(Some(Event::Text { content })) if content == "a"));
    assert_eq!(reader.remaining(), 2);
    assert!(matches!(reader.read_event(), Ok(Some(Event::Text { content })) if content == "a"));
    assert!(matches!(reader.read_event(), Ok(Some(Event::Text { content })) if content == "b"));
    assert!(matches!(reader.peek_event(), Ok(None)));
    assert!(matches!(reader.read_event(), Ok(None)));
    assert_eq!(reader.remaining(), 0);
}

#[test]
fn into_inner_drops_the_peeked_event() {
    let mut reader = reader(vec![text("a"), text("b")]);
    assert!(matches!(reader.peek_event(), Ok(Some(_))));
    let mut source = reader.into_inner();
    assert_eq!(source.len(), 1);
    assert!(matches!(source.next(), Ok(Some(Event::Text { content })) if content == "b"));
    assert!(matches!(source.next(), Ok(None)));
}

#[test]
fn decode_of_events_gives_the_value() {
    let events =
        vec![start_with("report", "id", "a"), start("data"), text("test"), end("data"), end("report"), text("after")];
    let mut reader = reader(events);
    let de: Report = reader.deserialize().unwrap();
    assert_eq!(de, Report { id: "a".into(), data: Some(ReportData { data: "test".into() }) });
    assert!(matches!(reader.read_event(), Ok(Some(Event::Text { content })) if content == "after"));
}

#[test]
fn decode_from_a_source_gives_the_value() {
    let events = vec![start_with("report", "id", "a"), end("report")];
    let de: Report = from_source(EventSource::from_events(events)).unwrap();
    assert_eq!(de, Report { id: "a".into(), data: None });
    let r: Result<Report, Error> = from_source(EventSource::from_events(vec![]));
    assert!(matches!(r, Err(Error::MissingStart)));
}

#[test]
fn decode_twice_gives_the_same() {
    let events = || vec![start_with("report", "id", "a"), start("data"), end("data"), end("report")];
    let first: Report = reader(events()).deserialize().unwrap();
    let second: Report = reader(events()).deserialize().unwrap();
    assert_eq!(first, second);
    assert_eq!(first, Report { id: "a".into(), data: None });
}

#[test]
fn decode_without_start_is_missing_start() {
    let mut reader = reader(vec![text("a"), start("report")]);
    let r: Result<Report, Error> = reader.deserialize();
    assert!(matches!(r, Err(Error::MissingStart)));
    assert_eq!(reader.remaining(), 2);
    let mut empty = PeekingReader::new(EventSource::from_events(vec![]));
    let r: Result<Report, Error> = empty.deserialize();
    assert!(matches!(r, Err(Error::MissingStart)));
}

#[test]
fn decode_of_other_name_is_wrong_start() {
    let mut reader = reader(vec![start_with("other", "id", "a"), end("other")]);
    let r: Result<Report, Error> = reader.deserialize();
    assert!(matches!(r, Err(Error::WrongStart(expected, found)) if expected == "report" && found == "other"));
    assert_eq!(reader.remaining(), 2);
}

#[test]
fn decode_with_other_end_is_wrong_end() {
    let mut reader = reader(vec![start_with("report", "id", "a"), end("other")]);
    let r: Result<Report, Error> = reader.deserialize();
    assert!(matches!(r, Err(Error::WrongEnd(expected, found)) if expected == "report" && found == "other"));
}

#[test]
fn decode_without_end_is_missing_end() {
    let mut reader = reader(vec![start_with("report", "id", "a"), Event::Other]);
    let r: Result<Report, Error> = reader.deserialize();
    assert!(matches!(r, Err(Error::MissingEnd(name)) if name == "report"));
}

#[test]
fn other_events_are_dropped() {
    let events = vec![start_with("report", "id", "a"), Event::Other, Event::Other, end("report")];
    let de: Report = reader(events).deserialize().unwrap();
    assert_eq!(de, Report { id: "a".into(), data: None });
}

#[test]
fn skip_consumes_the_element_with_its_children() {
    let events = vec![
        start("a"),
        start("b"),
        start("a"),
        end("a"),
        text("t"),
        end("b"),
        Event::Other,
        end("a"),
        text("after"),
    ];
    let mut reader = reader(events);
    assert!(reader.skip_element().is_ok());
    assert_eq!(reader.remaining(), 1);
    assert!(matches!(reader.read_event(), Ok(Some(Event::Text { content })) if content == "after"));
}

#[test]
fn skip_counts_depth_not_names_below() {
    let events = vec![start("a"), start("b"), end("c"), end("a")];
    let mut reader = reader(events);
    assert!(reader.skip_element().is_ok());
    assert_eq!(reader.remaining(), 0);
}

#[test]
fn skip_without_start_is_missing_start() {
    let mut reader = reader(vec![end("a")]);
    assert!(matches!(reader.skip_element(), Err(Error::MissingStart)));
    assert_eq!(reader.remaining(), 1);
}

#[test]
fn skip_with_other_end_is_wrong_end() {
    let mut reader = reader(vec![start("a"), end("b")]);
    assert!(matches!(reader.skip_element(), Err(Error::WrongEnd(expected, found)) if expected == "a" && found == "b"));
}

#[test]
fn skip_without_end_is_missing_end() {
    let mut reader = reader(vec![start("a"), start("b"), end("b")]);
    assert!(matches!(reader.skip_element(), Err(Error::MissingEnd(name)) if name == "a"));
}

#[test]
fn node_read_and_decode_agree() {
    let xml = r#"<a x="1">t<b y="2"><c/>u</b><d/></a>"#;
    let read = XmlNode::read(&mut PeekingReader::from_str(xml)).unwrap();
    let decoded: XmlNode = PeekingReader::from_str(xml).deserialize().unwrap();
    assert_eq!(read, decoded);
    let expected = XmlNode {
        name: "a".into(),
        attributes: vec![XmlAttribute { name: "x".into(), value: "1".into() }],
        text: Some("t".into()),
        children: vec![
            XmlNode {
                name: "b".into(),
                attributes: vec![XmlAttribute { name: "y".into(), value: "2".into() }],
                text: Some("u".into()),
                children: vec![XmlNode { name: "c".into(), ..Default::default() }],
            },
            XmlNode { name: "d".into(), ..Default::default() },
        ],
    };
    assert_eq!(read, expected);
}

#[test]
fn node_keeps_the_last_text() {
    let xml = r#"<a>first<b/>second</a>"#;
    let node: XmlNode = PeekingReader::from_str(xml).deserialize().unwrap();
    assert_eq!(node.text, Some("second".to_string()));
}

#[test]
fn tokenizer_expands_empty_elements_and_trims_text() {
    let mut reader = PeekingReader::from_buf(b"<a>  x  <b/></a>");
    assert!(matches!(reader.read_event(), Ok(Some(Event::Start { name, .. })) if name == "a"));
    assert!(matches!(reader.read_event(), Ok(Some(Event::Text { content })) if content == "x"));
    assert!(matches!(reader.read_event(), Ok(Some(Event::Start { name, .. })) if name == "b"));
    assert!(matches!(reader.read_event(), Ok(Some(Event::End { name })) if name == "b"));
    assert!(matches!(reader.read_event(), Ok(Some(Event::End { name })) if name == "a"));
    assert!(matches!(reader.read_event(), Ok(None)));
}

#[test]
fn tokenizer_reads_local_names_and_attributes_in_order() {
    let mut reader = PeekingReader::from_str(r#"<p:a x="1" q:y="&lt;"></p:a>"#);
    match reader.read_event() {
        Ok(Some(Event::Start { name, attributes, malformed })) => {
            assert_eq!(name, "a");
            assert_eq!(attributes.len(), 2);
            assert_eq!(attributes[0].name, "x");
            assert_eq!(attributes[0].value, "1");
            assert_eq!(attributes[1].name, "q:y");
            assert_eq!(attributes[1].value, "&lt;");
            assert!(malformed.is_none());
        }
        other => panic!("unexpected {:?}", other),
    }
    assert!(matches!(reader.read_event(), Ok(Some(Event::End { name })) if name == "a"));
}

#[test]
fn tokenizer_error_is_handed_out_once() {
    let mut reader = PeekingReader::from_str("<a></b>");
    assert!(matches!(reader.read_event(), Ok(Some(Event::Start { .. }))));
    assert!(matches!(reader.read_event(), Err(Error::Xml(_))));
    assert!(matches!(reader.read_event(), Ok(None)));
}

#[test]
fn comments_and_declarations_are_other_events() {
    let mut reader = PeekingReader::from_str(r#"<?xml version="1.0"?><!-- c --><a/>"#);
    assert!(matches!(reader.read_event(), Ok(Some(Event::Other))));
    assert!(matches!(reader.read_event(), Ok(Some(Event::Other))));
    assert!(matches!(reader.read_event(), Ok(Some(Event::Start { .. }))));
}

#[test]
fn a_new_reader_hands_its_source_back_whole() {
    let source = reader(vec![text("a"), text("b")]).into_inner();
    assert_eq!(source.len(), 2);
    let mut reader = reader(vec![text("a"), text("b")]);
    assert!(matches!(reader.peek_event(), Ok(Some(_))));
    assert!(matches!(reader.read_event(), Ok(Some(_))));
    assert_eq!(reader.into_inner().len(), 1);
    let mut decoded = PeekingReader::from_str(r#"<report id="a"></report><next/>"#);
    let _: Report = decoded.deserialize().unwrap();
    assert_eq!(decoded.into_inner().len(), 2);
}

#[test]
fn bytes_that_are_no_text_fail_where_they_stand() {
    let mut reader = PeekingReader::from_buf(b"<a>\xff</a>");
    assert!(matches!(reader.read_event(), Ok(Some(Event::Start { name, .. })) if name == "a"));
    assert!(matches!(reader.read_event(), Err(Error::Xml(_))));
    assert!(matches!(reader.read_event(), Ok(Some(Event::End { name })) if name == "a"));
    assert!(matches!(reader.read_event(), Ok(None)));
    let mut reader = PeekingReader::from_buf("<a>\u{e9}</a>".as_bytes());
    assert!(matches!(reader.read_event(), Ok(Some(Event::Start { .. }))));
    assert!(matches!(reader.read_event(), Ok(Some(Event::Text { content })) if content == "\u{e9}"));
}

#[test]
fn text_is_trimmed_of_tokenizer_white_space_only() {
    let mut reader = PeekingReader::from_str("<a> \t\r\n x y \n</a><b> \n </b>");
    assert!(matches!(reader.read_event(), Ok(Some(Event::Start { .. }))));
    assert!(matches!(reader.read_event(), Ok(Some(Event::Text { content })) if content == "x y"));
    assert!(matches!(reader.read_event(), Ok(Some(Event::End { .. }))));
    assert!(matches!(reader.read_event(), Ok(Some(Event::Start { name, .. })) if name == "b"));
    assert!(matches!(reader.read_event(), Ok(Some(Event::End { name })) if name == "b"));
    assert!(matches!(reader.read_event(), Ok(None)));
}

#[test]
fn a_node_is_cloned_with_all_below_it() {
    let node: XmlNode = PeekingReader::from_str(r#"<a x="1">t<b><c/></b></a>"#).deserialize().unwrap();
    let copy = node.clone();
    assert_eq!(copy, node);
    assert_eq!(node.copy().children[0].children[0].name, "c");
}
