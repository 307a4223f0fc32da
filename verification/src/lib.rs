//! Decoding of XML documents into typed values through a pull-based visitor
//! protocol.
//!
//! A [`PeekingReader`] hands out the lexical events of a document with one
//! event of lookahead and drives a [`Visitor`] through one element: its tag,
//! its attributes, its text and its child elements. The visitor collects
//! what it is handed and builds the value at the end of the element.
//! Adapters put visitors together: optional values, repeated children,
//! leaves parsed from text, conversions, and several visitors merged over
//! one element.
//!
//! Every visitor describes its methods by functions on mathematical values,
//! and the engine is specified over these functions: what a decode returns,
//! and which events it consumes, is a function of the events that the reader
//! holds. The contracts and the laws stated beside them are machine-checked.
//! The tokenizer is `quick_xml`; what is assumed of it stands in
//! [`tokenizer`] and [`escape`].

pub mod error;
pub mod escape;
pub mod event;
pub mod fields;
pub mod impls;
pub mod lenient;
pub mod merge;
pub mod nesting;
pub mod node;
pub mod parse;
pub mod reader;
pub mod samples;
pub mod source;
pub mod tokenizer;
pub mod util;
pub mod visitor;

pub use self::error::{Error, Result};
pub use self::reader::PeekingReader;
pub use self::util::XmlVec;
pub use self::visitor::{FromXml, Visitor};

use crate::error::ErrorView;
use crate::reader::decode_spec;
use crate::source::{document_tokens, EventSource};
use crate::visitor::built;
use vstd::prelude::*;
use vstd::string::StringSliceAdditionalSpecFns;

verus! {

/// Deserializes the element at the head of an event source into a `T`
pub fn from_source<T: FromXml>(source: EventSource) -> (r: Result<T>)
    ensures
        built::<T::Visitor>(r) == decode_spec::<T::Visitor>(source@).0,
{
    let mut reader = PeekingReader::new(source);
    reader.deserialize()
}

/// Shortcut for deserializing data from a [`str`] containing XML: the
/// document is cut into events by the tokenizer, and its root element is
/// deserialized as [`from_source`] says.
pub fn from_str<T: FromXml>(input: &str) -> (r: Result<T>)
    ensures
        built::<T::Visitor>(r) == decode_spec::<T::Visitor>(
            document_tokens(input.spec_bytes()),
        ).0,
{
    from_source(EventSource::from_str(input))
}

} // verus!
