//! Reports that are converted from an untyped node.

use crate::escape::same_text;
use crate::event::AttributeView;
use crate::impls::{FromDecoded, FromVisitor, TryFromDecoded, TryFromVisitor, XmlFromStr};
use crate::node::{node_attribute_views, NodeView, XmlNode};
use crate::visitor::{FromXml, Visitor};
use vstd::prelude::*;

verus! {

/// The value of the first attribute named `name` from index `i` on.
pub open spec fn find_attribute(attributes: Seq<AttributeView>, name: Seq<char>, i: int) -> Option<
    Seq<char>,
>
    decreases attributes.len() - i,
{
    if i < 0 || i >= attributes.len() {
        None
    } else if attributes[i].name == name {
        Some(attributes[i].value)
    } else {
        find_attribute(attributes, name, i + 1)
    }
}

/// The identifier that a node holds: the number in its first `id`
/// attribute, or the message that says why there is none.
pub open spec fn node_id(node: NodeView) -> std::result::Result<u32, Seq<char>> {
    match find_attribute(node.attributes, "id"@, 0) {
        None => Err("missing attribute id"@),
        Some(value) => u32::parse_spec(value),
    }
}

/// Reads the identifier that a node holds.
pub fn read_id(node: &XmlNode) -> (r: std::result::Result<u32, String>)
    ensures
        match r {
            Ok(id) => node_id(node@) == Ok::<u32, Seq<char>>(id),
            Err(message) => node_id(node@) == Err::<u32, Seq<char>>(message@),
        },
{
    let mut i: usize = 0;
    while i < node.attributes.len()
        invariant
            0 <= i <= node.attributes.len(),
            find_attribute(node@.attributes, "id"@, 0) == find_attribute(
                node@.attributes,
                "id"@,
                i as int,
            ),
            node@.attributes == node_attribute_views(node.attributes@),
        decreases node.attributes.len() - i,
    {
        let attribute = &node.attributes[i];
        if same_text(attribute.name.as_str(), "id") {
            return u32::from_xml_str(attribute.value.as_str());
        }
        i = i + 1;
    }
    Err("missing attribute id".to_owned())
}

/// A report that is read from an untyped node. A node without a numeric
/// `id` attribute gives the identifier 0.
#[derive(Debug, PartialEq)]
pub struct Report {
    pub id: u32,
}

impl FromDecoded<XmlNode> for Report {
    type Value = u32;

    open spec fn value(&self) -> u32 {
        self.id
    }

    open spec fn convert_spec(source: NodeView) -> u32 {
        match node_id(source) {
            Ok(id) => id,
            Err(_) => 0,
        }
    }

    fn convert(source: XmlNode) -> Report {
        match read_id(&source) {
            Ok(id) => Report { id },
            Err(_) => Report { id: 0 },
        }
    }
}

impl FromXml for Report {
    type Visitor = FromVisitor<Report, XmlNode>;
}

/// A report that is read from an untyped node and that refuses the
/// identifier 5.
#[derive(Debug, PartialEq)]
pub struct ReportTry {
    pub id: u32,
}

impl TryFromDecoded<XmlNode> for ReportTry {
    type Value = u32;

    open spec fn value(&self) -> u32 {
        self.id
    }

    open spec fn try_convert_spec(source: NodeView) -> std::result::Result<u32, Seq<char>> {
        match node_id(source) {
            Ok(id) => if id == 5 {
                Err("invalid num: 5"@)
            } else {
                Ok(id)
            },
            Err(message) => Err(message),
        }
    }

    fn try_convert(source: XmlNode) -> std::result::Result<ReportTry, String> {
        match read_id(&source) {
            Ok(id) => if id == 5 {
                Err("invalid num: 5".to_owned())
            } else {
                Ok(ReportTry { id })
            },
            Err(message) => Err(message),
        }
    }
}

impl FromXml for ReportTry {
    type Visitor = TryFromVisitor<ReportTry, XmlNode>;
}

} // verus!
