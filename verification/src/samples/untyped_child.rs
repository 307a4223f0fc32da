//! An element with a child that is kept as an untyped node.

use crate::fields::{Child, Required, Text};
use crate::impls::{FromDecoded, FromVisitor};
use crate::merge::Merged;
use crate::node::{NodeView, XmlNode};
use crate::samples::labels::{RequiredName, UselessName};
use crate::visitor::{FromXml, Visitor};
use vstd::prelude::*;

verus! {

/// The visitor of the fields of [`Test`].
pub type TestFields = Merged<
    Merged<Required<Text<String>>, Required<Child<RequiredName, String>>>,
    Required<Child<UselessName, XmlNode>>,
>;

/// An element with a text, a required child and an untyped child.
#[derive(Debug, PartialEq)]
pub struct Test {
    pub text: String,
    pub required: String,
    pub useless: XmlNode,
}

impl FromDecoded<TestFields> for Test {
    type Value = ((Seq<char>, Seq<char>), NodeView);

    open spec fn value(&self) -> Self::Value {
        ((self.text@, self.required@), self.useless@)
    }

    open spec fn convert_spec(source: Self::Value) -> Self::Value {
        source
    }

    fn convert(source: <TestFields as Visitor>::Output) -> Test {
        let ((text, required), useless) = source;
        Test { text, required, useless }
    }
}

impl FromXml for Test {
    type Visitor = FromVisitor<Test, TestFields>;
}

} // verus!
