//! A report with fields of types that wrap one value.

use crate::fields::{value_of, Attr, Child, Required, Tagged, Text, ValueOf};
use crate::impls::{FromDecoded, FromVisitor};
use crate::merge::Merged;
use crate::samples::labels::{DataName, IdName, ReportTag};
use crate::visitor::{FromXml, Visitor};
use vstd::prelude::*;

verus! {

/// The visitor of the fields of [`Id`].
pub type IdFields = Required<Text<String>>;

/// An identifier: a text.
#[derive(Debug, PartialEq)]
pub struct Id(pub String);

impl FromDecoded<IdFields> for Id {
    type Value = Seq<char>;

    open spec fn value(&self) -> Self::Value {
        self.0@
    }

    open spec fn convert_spec(source: Self::Value) -> Self::Value {
        source
    }

    fn convert(inner: <IdFields as Visitor>::Output) -> Id {
        Id(inner)
    }
}

impl FromXml for Id {
    type Visitor = FromVisitor<Id, IdFields>;
}

/// The visitor of the fields of [`Value`].
pub type ValueFields = Required<Text<String>>;

/// A value: a text.
#[derive(Debug, PartialEq)]
pub struct Value(pub String);

impl FromDecoded<ValueFields> for Value {
    type Value = Seq<char>;

    open spec fn value(&self) -> Self::Value {
        self.0@
    }

    open spec fn convert_spec(source: Self::Value) -> Self::Value {
        source
    }

    fn convert(inner: <ValueFields as Visitor>::Output) -> Value {
        Value(inner)
    }
}

impl FromXml for Value {
    type Visitor = FromVisitor<Value, ValueFields>;
}

/// The visitor of the fields of [`Data`].
pub type DataFields = Required<Text<Value>>;

/// Data: a value.
#[derive(Debug, PartialEq)]
pub struct Data(pub Value);

impl FromDecoded<DataFields> for Data {
    type Value = ValueOf<Value>;

    open spec fn value(&self) -> Self::Value {
        value_of::<Value>(self.0)
    }

    open spec fn convert_spec(source: Self::Value) -> Self::Value {
        source
    }

    fn convert(inner: <DataFields as Visitor>::Output) -> Data {
        Data(inner)
    }
}

impl FromXml for Data {
    type Visitor = FromVisitor<Data, DataFields>;
}

/// The visitor of the fields of [`Report`].
pub type ReportFields = Merged<Required<Attr<IdName, Id>>, Required<Child<DataName, Data>>>;

/// A report whose fields are wrapped texts.
#[derive(Debug, PartialEq)]
pub struct Report {
    pub id: Id,
    pub data: Data,
}

impl FromDecoded<ReportFields> for Report {
    type Value = (ValueOf<Id>, ValueOf<Data>);

    open spec fn value(&self) -> Self::Value {
        (value_of::<Id>(self.id), value_of::<Data>(self.data))
    }

    open spec fn convert_spec(source: Self::Value) -> Self::Value {
        source
    }

    fn convert(source: <ReportFields as Visitor>::Output) -> Report {
        let (id, data) = source;
        Report { id, data }
    }
}

impl FromXml for Report {
    type Visitor = Tagged<ReportTag, FromVisitor<Report, ReportFields>>;
}

} // verus!
