//! A response that merges the fields of its status into its own element.

use crate::fields::{value_of, Attr, Child, Required, Text, ValueOf};
use crate::impls::{FromDecoded, FromVisitor};
use crate::merge::Merged;
use crate::samples::labels::{DataName, StatusName};
use crate::visitor::{FromXml, Visitor};
use vstd::prelude::*;

verus! {

/// The visitor of the fields of [`ResponseStatus`].
pub type ResponseStatusFields = Required<Attr<StatusName, String>>;

/// The status of a response, held in an attribute.
#[derive(Debug, PartialEq)]
pub struct ResponseStatus {
    pub status: String,
}

impl FromDecoded<ResponseStatusFields> for ResponseStatus {
    type Value = Seq<char>;

    open spec fn value(&self) -> Self::Value {
        self.status@
    }

    open spec fn convert_spec(source: Self::Value) -> Self::Value {
        source
    }

    fn convert(status: <ResponseStatusFields as Visitor>::Output) -> ResponseStatus {
        ResponseStatus { status }
    }
}

impl FromXml for ResponseStatus {
    type Visitor = FromVisitor<ResponseStatus, ResponseStatusFields>;
}

/// The visitor of the fields of [`ResponseData`].
pub type ResponseDataFields = Required<Text<String>>;

/// The data of a response: its text.
#[derive(Debug, PartialEq)]
pub struct ResponseData {
    pub text: String,
}

impl FromDecoded<ResponseDataFields> for ResponseData {
    type Value = Seq<char>;

    open spec fn value(&self) -> Self::Value {
        self.text@
    }

    open spec fn convert_spec(source: Self::Value) -> Self::Value {
        source
    }

    fn convert(text: <ResponseDataFields as Visitor>::Output) -> ResponseData {
        ResponseData { text }
    }
}

impl FromXml for ResponseData {
    type Visitor = FromVisitor<ResponseData, ResponseDataFields>;
}

/// The visitor of the fields of [`Response`].
pub type ResponseFields = Merged<
    Required<Child<DataName, ResponseData>>,
    <ResponseStatus as FromXml>::Visitor,
>;

/// A response whose status is read from the attributes of the response element itself.
#[derive(Debug, PartialEq)]
pub struct Response {
    pub data: ResponseData,
    pub status: ResponseStatus,
}

impl FromDecoded<ResponseFields> for Response {
    type Value = (ValueOf<ResponseData>, ValueOf<ResponseStatus>);

    open spec fn value(&self) -> Self::Value {
        (value_of::<ResponseData>(self.data), value_of::<ResponseStatus>(self.status))
    }

    open spec fn convert_spec(source: Self::Value) -> Self::Value {
        source
    }

    fn convert(source: <ResponseFields as Visitor>::Output) -> Response {
        let (data, status) = source;
        Response { data, status }
    }
}

impl FromXml for Response {
    type Visitor = FromVisitor<Response, ResponseFields>;
}

} // verus!
