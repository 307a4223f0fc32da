//! A response that merges the fields of an optional status into its own element.

use crate::fields::{option_value, value_of, Attr, Child, Required, Text, ValueOf};
use crate::impls::{FromDecoded, FromVisitor, OptionalVisitor};
use crate::merge::Merged;
use crate::samples::labels::{DataName, StatusName, StatusTextName};
use crate::visitor::{FromXml, Visitor};
use vstd::prelude::*;

verus! {

/// The visitor of the fields of [`ResponseStatus`].
pub type ResponseStatusFields = Merged<
    Required<Attr<StatusName, String>>,
    Required<Child<StatusTextName, String>>,
>;

/// The status of a response: an attribute and a child.
#[derive(Debug, PartialEq)]
pub struct ResponseStatus {
    pub status: String,
    pub status_text: String,
}

impl FromDecoded<ResponseStatusFields> for ResponseStatus {
    type Value = (Seq<char>, Seq<char>);

    open spec fn value(&self) -> Self::Value {
        (self.status@, self.status_text@)
    }

    open spec fn convert_spec(source: Self::Value) -> Self::Value {
        source
    }

    fn convert(source: <ResponseStatusFields as Visitor>::Output) -> ResponseStatus {
        let (status, status_text) = source;
        ResponseStatus { status, status_text }
    }
}

impl FromXml for ResponseStatus {
    type Visitor = FromVisitor<ResponseStatus, ResponseStatusFields>;
}

/// The visitor of the fields of [`ResponseData`].
pub type ResponseDataFields = Required<Text<String>>;

/// The data of a response: its text.
#[derive(Debug, PartialEq)]
pub struct ResponseData {
    pub text: String,
}

impl FromDecoded<ResponseDataFields> for ResponseData {
    type Value = Seq<char>;

    open spec fn value(&self) -> Self::Value {
        self.text@
    }

    open spec fn convert_spec(source: Self::Value) -> Self::Value {
        source
    }

    fn convert(text: <ResponseDataFields as Visitor>::Output) -> ResponseData {
        ResponseData { text }
    }
}

impl FromXml for ResponseData {
    type Visitor = FromVisitor<ResponseData, ResponseDataFields>;
}

/// The visitor of the fields of [`Response`].
pub type ResponseFields = Merged<
    Required<Child<DataName, ResponseData>>,
    OptionalVisitor<ResponseStatus>,
>;

/// A response with a merged status that is absent where nothing of it is
/// there. A status of which a part is there and a part is missing fails
/// the response.
#[derive(Debug, PartialEq)]
pub struct Response {
    pub data: ResponseData,
    pub status: Option<ResponseStatus>,
}

impl FromDecoded<ResponseFields> for Response {
    type Value = (ValueOf<ResponseData>, Option<ValueOf<ResponseStatus>>);

    open spec fn value(&self) -> Self::Value {
        (value_of::<ResponseData>(self.data), option_value::<ResponseStatus>(self.status))
    }

    open spec fn convert_spec(source: Self::Value) -> Self::Value {
        source
    }

    fn convert(source: <ResponseFields as Visitor>::Output) -> Response {
        let (data, status) = source;
        Response { data, status }
    }
}

impl FromXml for Response {
    type Visitor = FromVisitor<Response, ResponseFields>;
}

} // verus!
