//! Elements with children that hold nothing.

use crate::fields::{option_value, value_of, Child, NoFields, OptChild, Required, ValueOf};
use crate::impls::{FromDecoded, FromVisitor};
use crate::samples::labels::EmptyName;
use crate::visitor::{FromXml, Visitor};
use vstd::prelude::*;

verus! {

/// The visitor of the fields of [`EmptyStruct`].
pub type EmptyStructFields = NoFields;

/// An element without fields.
#[derive(Debug, PartialEq)]
pub struct EmptyStruct {}

impl FromDecoded<EmptyStructFields> for EmptyStruct {
    type Value = ();

    open spec fn value(&self) -> Self::Value {
        ()
    }

    open spec fn convert_spec(source: Self::Value) -> Self::Value {
        source
    }

    fn convert(source: <EmptyStructFields as Visitor>::Output) -> EmptyStruct {
        EmptyStruct {}
    }
}

impl FromXml for EmptyStruct {
    type Visitor = FromVisitor<EmptyStruct, EmptyStructFields>;
}

/// The visitor of the fields of [`EmptyTuple`].
pub type EmptyTupleFields = NoFields;

/// An element without fields, as a tuple.
#[derive(Debug, PartialEq)]
pub struct EmptyTuple();

impl FromDecoded<EmptyTupleFields> for EmptyTuple {
    type Value = ();

    open spec fn value(&self) -> Self::Value {
        ()
    }

    open spec fn convert_spec(source: Self::Value) -> Self::Value {
        source
    }

    fn convert(source: <EmptyTupleFields as Visitor>::Output) -> EmptyTuple {
        EmptyTuple()
    }
}

impl FromXml for EmptyTuple {
    type Visitor = FromVisitor<EmptyTuple, EmptyTupleFields>;
}

/// The visitor of the fields of [`DataStruct`].
pub type DataStructFields = OptChild<EmptyName, EmptyStruct>;

/// An element whose `empty` child may be missing.
#[derive(Debug, PartialEq)]
pub struct DataStruct {
    pub empty: Option<EmptyStruct>,
}

impl FromDecoded<DataStructFields> for DataStruct {
    type Value = Option<ValueOf<EmptyStruct>>;

    open spec fn value(&self) -> Self::Value {
        option_value::<EmptyStruct>(self.empty)
    }

    open spec fn convert_spec(source: Self::Value) -> Self::Value {
        source
    }

    fn convert(empty: <DataStructFields as Visitor>::Output) -> DataStruct {
        DataStruct { empty }
    }
}

impl FromXml for DataStruct {
    type Visitor = FromVisitor<DataStruct, DataStructFields>;
}

/// The visitor of the fields of [`DataStructReq`].
pub type DataStructReqFields = Required<Child<EmptyName, EmptyStruct>>;

/// An element whose `empty` child is required.
#[derive(Debug, PartialEq)]
pub struct DataStructReq {
    pub empty: EmptyStruct,
}

impl FromDecoded<DataStructReqFields> for DataStructReq {
    type Value = ValueOf<EmptyStruct>;

    open spec fn value(&self) -> Self::Value {
        value_of::<EmptyStruct>(self.empty)
    }

    open spec fn convert_spec(source: Self::Value) -> Self::Value {
        source
    }

    fn convert(empty: <DataStructReqFields as Visitor>::Output) -> DataStructReq {
        DataStructReq { empty }
    }
}

impl FromXml for DataStructReq {
    type Visitor = FromVisitor<DataStructReq, DataStructReqFields>;
}

/// The visitor of the fields of [`DataTuple`].
pub type DataTupleFields = OptChild<EmptyName, EmptyTuple>;

/// An element whose `empty` child may be missing.
#[derive(Debug, PartialEq)]
pub struct DataTuple {
    pub empty: Option<EmptyTuple>,
}

impl FromDecoded<DataTupleFields> for DataTuple {
    type Value = Option<ValueOf<EmptyTuple>>;

    open spec fn value(&self) -> Self::Value {
        option_value::<EmptyTuple>(self.empty)
    }

    open spec fn convert_spec(source: Self::Value) -> Self::Value {
        source
    }

    fn convert(empty: <DataTupleFields as Visitor>::Output) -> DataTuple {
        DataTuple { empty }
    }
}

impl FromXml for DataTuple {
    type Visitor = FromVisitor<DataTuple, DataTupleFields>;
}

} // verus!
