//! A report with an identifier that wraps a number.

use crate::fields::{value_of, Attr, Required, Tagged, Text, ValueOf};
use crate::impls::{FromDecoded, FromVisitor};
use crate::samples::labels::{IdName, ReportTag};
use crate::visitor::{FromXml, Visitor};
use vstd::prelude::*;

verus! {

/// The visitor of the fields of [`Id`].
pub type IdFields = Required<Text<u32>>;

/// An identifier: a number.
#[derive(Debug, PartialEq)]
pub struct Id(pub u32);

impl FromDecoded<IdFields> for Id {
    type Value = u32;

    open spec fn value(&self) -> Self::Value {
        self.0
    }

    open spec fn convert_spec(source: Self::Value) -> Self::Value {
        source
    }

    fn convert(inner: <IdFields as Visitor>::Output) -> Id {
        Id(inner)
    }
}

impl FromXml for Id {
    type Visitor = FromVisitor<Id, IdFields>;
}

/// The visitor of the fields of [`Report`].
pub type ReportFields = Required<Attr<IdName, Id>>;

/// A report with a numeric identifier.
#[derive(Debug, PartialEq)]
pub struct Report {
    pub id: Id,
}

impl FromDecoded<ReportFields> for Report {
    type Value = ValueOf<Id>;

    open spec fn value(&self) -> Self::Value {
        value_of::<Id>(self.id)
    }

    open spec fn convert_spec(source: Self::Value) -> Self::Value {
        source
    }

    fn convert(id: <ReportFields as Visitor>::Output) -> Report {
        Report { id }
    }
}

impl FromXml for Report {
    type Visitor = Tagged<ReportTag, FromVisitor<Report, ReportFields>>;
}

} // verus!
