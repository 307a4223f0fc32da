//! A report whose `data` child may be missing or empty.

use crate::fields::{option_value, Attr, OptChild, Required, Tagged, Text, ValueOf};
use crate::impls::{FromDecoded, FromVisitor};
use crate::merge::Merged;
use crate::samples::labels::{DataName, IdName, ReportTag};
use crate::visitor::{FromXml, Visitor};
use vstd::prelude::*;

verus! {

/// The visitor of the fields of [`ReportData`].
pub type ReportDataFields = Required<Text<String>>;

/// The `data` child of a report: its text.
#[derive(Debug, PartialEq)]
pub struct ReportData {
    pub data: String,
}

impl FromDecoded<ReportDataFields> for ReportData {
    type Value = Seq<char>;

    open spec fn value(&self) -> Self::Value {
        self.data@
    }

    open spec fn convert_spec(source: Self::Value) -> Self::Value {
        source
    }

    fn convert(data: <ReportDataFields as Visitor>::Output) -> ReportData {
        ReportData { data }
    }
}

impl FromXml for ReportData {
    type Visitor = Tagged<DataName, FromVisitor<ReportData, ReportDataFields>>;
}

/// The visitor of the fields of [`Report`].
pub type ReportFields = Merged<Required<Attr<IdName, String>>, OptChild<DataName, ReportData>>;

/// A report with an identifier and optional data.
#[derive(Debug, PartialEq)]
pub struct Report {
    pub id: String,
    pub data: Option<ReportData>,
}

impl FromDecoded<ReportFields> for Report {
    type Value = (Seq<char>, Option<ValueOf<ReportData>>);

    open spec fn value(&self) -> Self::Value {
        (self.id@, option_value::<ReportData>(self.data))
    }

    open spec fn convert_spec(source: Self::Value) -> Self::Value {
        source
    }

    fn convert(source: <ReportFields as Visitor>::Output) -> Report {
        let (id, data) = source;
        Report { id, data }
    }
}

impl FromXml for Report {
    type Visitor = Tagged<ReportTag, FromVisitor<Report, ReportFields>>;
}

} // verus!
