//! A report with a `data` child that may repeat.

use crate::fields::{values_of, Attr, Children, Fallback, OrElse, Required, Tagged, Text, ValueOf};
use crate::impls::{FromDecoded, FromVisitor};
use crate::merge::Merged;
use crate::samples::labels::{DataName, IdName, ReportTag};
use crate::visitor::{FromXml, Visitor};
use vstd::prelude::*;

verus! {

/// The empty text, for data that was left out.
pub struct EmptyText {}

impl Fallback<Text<String>> for EmptyText {
    open spec fn fallback() -> Seq<char> {
        Seq::empty()
    }

    fn make() -> String {
        String::new()
    }
}

/// The visitor of the fields of [`ReportData`].
pub type ReportDataFields = Merged<Required<Attr<IdName, String>>, OrElse<Text<String>, EmptyText>>;

/// An entry of a report: an identifier and a text that may be left out.
#[derive(Debug, PartialEq)]
pub struct ReportData {
    pub id: String,
    pub data: String,
}

impl FromDecoded<ReportDataFields> for ReportData {
    type Value = (Seq<char>, Seq<char>);

    open spec fn value(&self) -> Self::Value {
        (self.id@, self.data@)
    }

    open spec fn convert_spec(source: Self::Value) -> Self::Value {
        source
    }

    fn convert(source: <ReportDataFields as Visitor>::Output) -> ReportData {
        let (id, data) = source;
        ReportData { id, data }
    }
}

impl FromXml for ReportData {
    type Visitor = Tagged<DataName, FromVisitor<ReportData, ReportDataFields>>;
}

/// The visitor of the fields of [`Report`].
pub type ReportFields = Merged<Required<Attr<IdName, String>>, Children<DataName, ReportData>>;

/// A report with an identifier and any number of entries.
#[derive(Debug, PartialEq)]
pub struct Report {
    pub id: String,
    pub data: Vec<ReportData>,
}

impl FromDecoded<ReportFields> for Report {
    type Value = (Seq<char>, Seq<ValueOf<ReportData>>);

    open spec fn value(&self) -> Self::Value {
        (self.id@, values_of::<ReportData>(self.data@))
    }

    open spec fn convert_spec(source: Self::Value) -> Self::Value {
        source
    }

    fn convert(source: <ReportFields as Visitor>::Output) -> Report {
        let (id, data) = source;
        Report { id, data }
    }
}

impl FromXml for Report {
    type Visitor = Tagged<ReportTag, FromVisitor<Report, ReportFields>>;
}

} // verus!
