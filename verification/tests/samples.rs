use async_xml::error::Error;
use async_xml::from_str;
use async_xml::samples::{
    discard, flatten, flatten_option, newtype, newtype_int, report_vec, store_any, untyped_child,
    zst,
};
use async_xml::util::{XmlAttribute, XmlNode};

const NESTED: &str = r#"
<test>
    text
    <useless>
        <child attribute="something"></child>
        <child>some random text whatever</child>
    </useless>
    <whatever />
</test>"#;

#[test]
fn discard_test_children() {
    let de: discard::TestChildren = from_str(NESTED).unwrap();
    let expected = discard::TestChildren { text: "text".into() };
    assert_eq!(de, expected);
}

#[test]
#[should_panic]
fn test_children_disallowed() {
    let _: discard::Test = from_str(NESTED).unwrap();
}

#[test]
fn children_disallowed_is_unexpected_child() {
    let r: Result<discard::Test, Error> = from_str(NESTED);
    assert!(matches!(r, Err(Error::UnexpectedChild(name)) if name == "useless"));
}

#[test]
fn test_attributes() {
    let xml = r#"
<test attribute="something" attribute2="something-else">
    text
</test>"#;
    let de: discard::TestAttributes = from_str(xml).unwrap();
    let expected = discard::TestAttributes { text: "text".into() };
    assert_eq!(de, expected);
}

#[test]
#[should_panic]
fn test_attributes_disallowed() {
    let xml = r#"
<test attribute="something" attribute2="something-else">
    text
</test>"#;
    let _: discard::Test = from_str(xml).unwrap();
}

#[test]
fn flatten_test() {
    let xml = r#"<response status="ok"><data>text</data></response>"#;
    let de: flatten::Response = from_str(xml).unwrap();
    let expected = flatten::Response {
        status: flatten::ResponseStatus { status: "ok".into() },
        data: flatten::ResponseData { text: "text".into() },
    };
    assert_eq!(de, expected);
}

#[test]
fn test_present() {
    let xml =
        r#"<response status="ok"><status_text>success</status_text><data>text</data></response>"#;
    let de: flatten_option::Response = from_str(xml).unwrap();
    let expected = flatten_option::Response {
        status: Some(flatten_option::ResponseStatus {
            status: "ok".into(),
            status_text: "success".into(),
        }),
        data: flatten_option::ResponseData { text: "text".into() },
    };
    assert_eq!(de, expected);
}

#[test]
fn test_partial_present_1() {
    let xml = r#"<response status="ok"><data>text</data></response>"#;
    let de: Result<flatten_option::Response, Error> = from_str(xml);
    assert!(matches!(de, Err(Error::MissingChild(name)) if name == "status_text"));
}

#[test]
fn test_partial_present_2() {
    let xml = r#"<response><status_text>success</status_text><data>text</data></response>"#;
    let de: Result<flatten_option::Response, Error> = from_str(xml);
    assert!(matches!(de, Err(Error::MissingAttribute(name)) if name == "status"));
}

#[test]
fn test_not_present() {
    let xml = r#"<response><data>text</data></response>"#;
    let de: flatten_option::Response = from_str(xml).unwrap();
    let expected = flatten_option::Response {
        status: None,
        data: flatten_option::ResponseData { text: "text".into() },
    };
    assert_eq!(de, expected);
}

#[test]
fn newtype_test() {
    let xml = r#"<report id="b"><data>text</data></report>"#;
    let de: newtype::Report = from_str(xml).unwrap();
    let expected = newtype::Report {
        id: newtype::Id("b".into()),
        data: newtype::Data(newtype::Value("text".into())),
    };
    assert_eq!(de, expected);
}

#[test]
fn newtype_int_test() {
    let xml = r#"<report id="5"></report>"#;
    let de: newtype_int::Report = from_str(xml).unwrap();
    let expected = newtype_int::Report { id: newtype_int::Id(5) };
    assert_eq!(de, expected);
}

#[test]
#[should_panic]
fn newtype_int_test_invalid() {
    let xml = r#"<report id="-5"></report>"#;
    let _: newtype_int::Report = from_str(xml).unwrap();
}

#[test]
#[should_panic]
fn newtype_int_test_missing() {
    let xml = r#"<report id=""></report>"#;
    let _: newtype_int::Report = from_str(xml).unwrap();
}

#[test]
fn report_vec_test() {
    let xml = r#"<report id="b"><data id="a">test</data><data id="3"></data></report>"#;
    let de: report_vec::Report = from_str(xml).unwrap();
    let expected = report_vec::Report {
        id: "b".into(),
        data: vec![
            report_vec::ReportData { id: "a".into(), data: "test".into() },
            report_vec::ReportData { id: "3".into(), data: "".into() },
        ],
    };
    assert_eq!(de, expected);
}

#[test]
fn store_any_test_children() {
    let xml = r#"
<test>
    text
    <required>this is important!</required>
    <useless>
        <child attribute="something"></child>
        <child>some random text whatever</child>
    </useless>
    <whatever />
</test>"#;
    let de: store_any::Test = from_str(xml).unwrap();
    let expected = store_any::Test {
        text: "text".into(),
        required: "this is important!".into(),
        remaining: XmlNode {
            name: "test".into(),
            children: vec![
                XmlNode {
                    name: "useless".into(),
                    children: vec![
                        XmlNode {
                            name: "child".into(),
                            attributes: vec![XmlAttribute {
                                name: "attribute".into(),
                                value: "something".into(),
                            }],
                            ..Default::default()
                        },
                        XmlNode {
                            name: "child".into(),
                            text: Some("some random text whatever".into()),
                            ..Default::default()
                        },
                    ],
                    ..Default::default()
                },
                XmlNode { name: "whatever".into(), ..Default::default() },
            ],
            ..Default::default()
        },
    };
    assert_eq!(de, expected);
}

#[test]
fn untyped_child_test_children() {
    let xml = r#"
<test>
    text
    <required>this is important!</required>
    <useless>
        <child attribute="something"></child>
        <child>some random text whatever</child>
    </useless>
</test>"#;
    let de: untyped_child::Test = from_str(xml).unwrap();
    let expected = untyped_child::Test {
        text: "text".into(),
        required: "this is important!".into(),
        useless: XmlNode {
            name: "useless".into(),
            children: vec![
                XmlNode {
                    name: "child".into(),
                    attributes: vec![XmlAttribute {
                        name: "attribute".into(),
                        value: "something".into(),
                    }],
                    ..Default::default()
                },
                XmlNode {
                    name: "child".into(),
                    text: Some("some random text whatever".into()),
                    ..Default::default()
                },
            ],
            ..Default::default()
        },
    };
    assert_eq!(de, expected);
}

#[test]
fn test_zst_struct_missing() {
    let xml = r#"<data></data>"#;
    let de: zst::DataStruct = from_str(xml).unwrap();
    let expected = zst::DataStruct { empty: None };
    assert_eq!(de, expected);
}

#[test]
fn test_zst_struct_required() {
    let xml = r#"<data><empty /></data>"#;
    let de: zst::DataStructReq = from_str(xml).unwrap();
    let expected = zst::DataStructReq { empty: zst::EmptyStruct {} };
    assert_eq!(de, expected);
}

#[test]
#[should_panic]
fn test_zst_struct_required_missing() {
    let xml = r#"<data></data>"#;
    let _: zst::DataStructReq = from_str(xml).unwrap();
}

#[test]
fn test_zst_tuple_missing() {
    let xml = r#"<data></data>"#;
    let de: zst::DataTuple = from_str(xml).unwrap();
    let expected = zst::DataTuple { empty: None };
    assert_eq!(de, expected);
}

#[test]
fn zst_child_without_content_is_absent() {
    let xml = r#"<data><empty /></data>"#;
    let de: zst::DataStruct = from_str(xml).unwrap();
    assert_eq!(de, zst::DataStruct { empty: None });
}

#[test]
fn private_test() {
    let xml = r#"<a></a>"#;
    let de: zst::EmptyStruct = from_str(xml).unwrap();
    assert_eq!(de, zst::EmptyStruct {});
}
