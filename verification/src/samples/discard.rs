//! Elements that let pass what they do not declare.

use crate::fields::{Required, Text};
use crate::impls::{FromDecoded, FromVisitor};
use crate::lenient::{AllowUnknownAttributes, AllowUnknownChildren};
use crate::visitor::{FromXml, Visitor};
use vstd::prelude::*;

verus! {

/// The visitor of the fields of [`Test`].
pub type TestFields = Required<Text<String>>;

/// An element with a text and nothing else.
#[derive(Debug, PartialEq)]
pub struct Test {
    pub text: String,
}

impl FromDecoded<TestFields> for Test {
    type Value = Seq<char>;

    open spec fn value(&self) -> Self::Value {
        self.text@
    }

    open spec fn convert_spec(source: Self::Value) -> Self::Value {
        source
    }

    fn convert(text: <TestFields as Visitor>::Output) -> Test {
        Test { text }
    }
}

impl FromXml for Test {
    type Visitor = FromVisitor<Test, TestFields>;
}

/// The visitor of the fields of [`TestChildren`].
pub type TestChildrenFields = Required<Text<String>>;

/// An element with a text, whose child elements are skipped.
#[derive(Debug, PartialEq)]
pub struct TestChildren {
    pub text: String,
}

impl FromDecoded<TestChildrenFields> for TestChildren {
    type Value = Seq<char>;

    open spec fn value(&self) -> Self::Value {
        self.text@
    }

    open spec fn convert_spec(source: Self::Value) -> Self::Value {
        source
    }

    fn convert(text: <TestChildrenFields as Visitor>::Output) -> TestChildren {
        TestChildren { text }
    }
}

impl FromXml for TestChildren {
    type Visitor = AllowUnknownChildren<FromVisitor<TestChildren, TestChildrenFields>>;
}

/// The visitor of the fields of [`TestAttributes`].
pub type TestAttributesFields = Required<Text<String>>;

/// An element with a text, whose attributes are dropped.
#[derive(Debug, PartialEq)]
pub struct TestAttributes {
    pub text: String,
}

impl FromDecoded<TestAttributesFields> for TestAttributes {
    type Value = Seq<char>;

    open spec fn value(&self) -> Self::Value {
        self.text@
    }

    open spec fn convert_spec(source: Self::Value) -> Self::Value {
        source
    }

    fn convert(text: <TestAttributesFields as Visitor>::Output) -> TestAttributes {
        TestAttributes { text }
    }
}

impl FromXml for TestAttributes {
    type Visitor = AllowUnknownAttributes<FromVisitor<TestAttributes, TestAttributesFields>>;
}

} // verus!
