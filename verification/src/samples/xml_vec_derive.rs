//! A report with a space-separated list that is converted into a vector.

use crate::fields::{Child, Required, Tagged};
use crate::impls::{FromDecoded, FromVisitor};
use crate::samples::labels::{IdsName, ReportTag};
use crate::util::{item_values, XmlVec};
use crate::visitor::{FromXml, Visitor};
use vstd::prelude::*;

verus! {

/// The visitor of the fields of [`Report`].
pub type ReportFields = Required<Child<IdsName, XmlVec<u32>>>;

/// A report with a list of numbers in one child, kept as a plain vector.
#[derive(Debug, PartialEq)]
pub struct Report {
    pub data: Vec<u32>,
}

impl FromDecoded<ReportFields> for Report {
    type Value = Seq<u32>;

    open spec fn value(&self) -> Seq<u32> {
        item_values::<u32>(self.data@)
    }

    open spec fn convert_spec(source: Seq<u32>) -> Seq<u32> {
        source
    }

    fn convert(source: XmlVec<u32>) -> Report {
        Report { data: source.into_vec() }
    }
}

impl FromXml for Report {
    type Visitor = Tagged<ReportTag, FromVisitor<Report, ReportFields>>;
}

} // verus!
