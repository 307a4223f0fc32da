//! A report with a space-separated list.

use crate::fields::{value_of, Child, Required, Tagged, ValueOf};
use crate::impls::{FromDecoded, FromVisitor};
use crate::samples::labels::{IdsName, ReportTag};
use crate::util::XmlVec;
use crate::visitor::{FromXml, Visitor};
use vstd::prelude::*;

verus! {

/// The visitor of the fields of [`Report`].
pub type ReportFields = Required<Child<IdsName, XmlVec<u32>>>;

/// A report with a list of numbers in one child.
#[derive(Debug, PartialEq)]
pub struct Report {
    pub data: XmlVec<u32>,
}

impl FromDecoded<ReportFields> for Report {
    type Value = ValueOf<XmlVec<u32>>;

    open spec fn value(&self) -> Self::Value {
        value_of::<XmlVec<u32>>(self.data)
    }

    open spec fn convert_spec(source: Self::Value) -> Self::Value {
        source
    }

    fn convert(data: <ReportFields as Visitor>::Output) -> Report {
        Report { data }
    }
}

impl FromXml for Report {
    type Visitor = Tagged<ReportTag, FromVisitor<Report, ReportFields>>;
}

} // verus!
