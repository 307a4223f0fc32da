use async_xml::from_str;
use async_xml::samples::report_option::{Report, ReportData};

#[test]
fn report_option_test() {
    let xml = r#"<report id="b"><data>text</data></report>"#;
    let de: Report = from_str(xml).unwrap();
    let expected = Report { id: "b".into(), data: Some(ReportData { data: "text".into() }) };
    assert_eq!(de, expected);
}

#[test]
fn report_option_test_missing() {
    let xml = r#"<report id="b"></report>"#;
    let de: Report = from_str(xml).unwrap();
    let expected = Report { id: "b".into(), data: None };
    assert_eq!(de, expected);
}

#[test]
fn report_option_test_empty() {
    let xml = r#"<report id="b"><data /></report>"#;
    let de: Report = from_str(xml).unwrap();
    let expected = Report { id: "b".into(), data: None };
    assert_eq!(de, expected);
}
