//! An element that keeps what it does not declare in an untyped node.

use crate::fields::{Child, Required, Text};
use crate::impls::{FromDecoded, FromVisitor};
use crate::merge::Merged;
use crate::node::{NodeView, XmlNode};
use crate::samples::labels::RequiredName;
use crate::visitor::{FromXml, Visitor};
use vstd::prelude::*;

verus! {

/// The visitor of the fields of [`Test`].
pub type TestFields = Merged<
    Merged<Required<Text<String>>, Required<Child<RequiredName, String>>>,
    XmlNode,
>;

/// An element with a text and a required child, which keeps all other children.
#[derive(Debug, PartialEq)]
pub struct Test {
    pub text: String,
    pub required: String,
    pub remaining: XmlNode,
}

impl FromDecoded<TestFields> for Test {
    type Value = ((Seq<char>, Seq<char>), NodeView);

    open spec fn value(&self) -> Self::Value {
        ((self.text@, self.required@), self.remaining@)
    }

    open spec fn convert_spec(source: Self::Value) -> Self::Value {
        source
    }

    fn convert(source: <TestFields as Visitor>::Output) -> Test {
        let ((text, required), remaining) = source;
        Test { text, required, remaining }
    }
}

impl FromXml for Test {
    type Visitor = FromVisitor<Test, TestFields>;
}

} // verus!
