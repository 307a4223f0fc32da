//! A report with an identifier that has a textual parse of its own.

use crate::fields::{value_of, Attr, Required, Tagged, Text, ValueOf};
use crate::impls::{FromDecoded, FromVisitor, XmlFromStr};
use crate::merge::Merged;
use crate::samples::labels::{IdName, ReportTag};
use crate::visitor::{FromXml, Visitor};
use vstd::prelude::*;

verus! {

/// Why a text is no identifier.
#[derive(Debug, PartialEq)]
pub enum IdFromStrError {
    /// The text is empty.
    Invalid,
}

impl IdFromStrError {
    /// The message of the error.
    pub fn message(&self) -> (text: String)
        ensures
            text@ == "Invalid"@,
    {
        "Invalid".to_owned()
    }
}

/// An identifier: a text that is not empty.
#[derive(Debug, PartialEq)]
pub struct Id(pub String);

impl XmlFromStr for Id {
    type Value = Seq<char>;

    open spec fn value(&self) -> Seq<char> {
        self.0@
    }

    open spec fn parse_spec(text: Seq<char>) -> std::result::Result<Seq<char>, Seq<char>> {
        if text.len() == 0 {
            Err("Invalid"@)
        } else {
            Ok(text)
        }
    }

    fn from_xml_str(text: &str) -> std::result::Result<Id, String> {
        if text.is_empty() {
            Err(IdFromStrError::Invalid.message())
        } else {
            Ok(Id(text.to_owned()))
        }
    }
}

/// The visitor of the fields of [`Report`].
pub type ReportFields = Merged<Required<Attr<IdName, Id>>, Required<Text<String>>>;

/// A report with an identifier of its own kind and a text.
#[derive(Debug, PartialEq)]
pub struct Report {
    pub id: Id,
    pub data: String,
}

impl FromDecoded<ReportFields> for Report {
    type Value = (ValueOf<Id>, Seq<char>);

    open spec fn value(&self) -> Self::Value {
        (value_of::<Id>(self.id), self.data@)
    }

    open spec fn convert_spec(source: Self::Value) -> Self::Value {
        source
    }

    fn convert(source: <ReportFields as Visitor>::Output) -> Report {
        let (id, data) = source;
        Report { id, data }
    }
}

impl FromXml for Report {
    type Visitor = Tagged<ReportTag, FromVisitor<Report, ReportFields>>;
}

} // verus!
