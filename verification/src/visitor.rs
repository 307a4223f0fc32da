//! The contract between the decode engine and the decoders of element types.

use crate::error::{outcome, Error, ErrorView};
use crate::event::Token;
use crate::nesting::{consumes_element, is_rest_of};
use crate::reader::PeekingReader;
use vstd::prelude::*;

verus! {

/// A step of a visitor as a mathematical function: the state after the
/// step, and whether the step succeeded.
pub type Step<M> = (M, std::result::Result<(), ErrorView>);

/// A trait for building up instances of types during deserialization.
///
/// An implementation describes each of its methods by a function on
/// mathematical values, and the methods are held to these functions. The
/// decode engine is specified over them, so what a decode returns is a
/// function of the events it reads.
///
/// A visitor accepts only what it declares. For everything else it gives
/// the answers of [`reject_attribute`](crate::impls::reject_attribute),
/// [`reject_child`](crate::impls::reject_child) and
/// [`reject_text`](crate::impls::reject_text), and it accepts every tag
/// name where it expects none.
pub trait Visitor: Sized {
    /// Output type this [`Visitor`] returns
    type Output;

    /// Mathematical content of the visitor's accumulated state.
    type Model;

    /// Mathematical content of an output.
    type Value;

    /// The content of this visitor's state.
    spec fn model(&self) -> Self::Model;

    /// The content of an output.
    spec fn value(output: &Self::Output) -> Self::Value;

    /// The state of a fresh visitor.
    spec fn initial() -> Self::Model;

    /// The expected starting tag name, if any.
    spec fn expected_name() -> Option<Seq<char>>;

    /// What [`visit_tag`](Visitor::visit_tag) does.
    spec fn tag_spec(m: Self::Model, name: Seq<char>) -> Step<Self::Model>;

    /// What [`visit_attribute`](Visitor::visit_attribute) does.
    spec fn attribute_spec(m: Self::Model, name: Seq<char>, value: Seq<char>) -> Step<Self::Model>;

    /// What [`visit_text`](Visitor::visit_text) does.
    spec fn text_spec(m: Self::Model, text: Seq<char>) -> Step<Self::Model>;

    /// What [`visit_child`](Visitor::visit_child) does, given the events
    /// that the reader still holds: the step, and the events left after it.
    spec fn child_spec(m: Self::Model, name: Seq<char>, pending: Seq<Token>) -> (
        Step<Self::Model>,
        Seq<Token>,
    );

    /// What [`build`](Visitor::build) returns.
    spec fn build_spec(m: Self::Model) -> std::result::Result<Self::Value, ErrorView>;

    /// A visitor that accepts a child has consumed exactly that child
    /// element, from its start tag to the matching end tag. Whether it
    /// accepts or not, it only takes events from the front of the stream.
    proof fn child_is_consumed(m: Self::Model, name: Seq<char>, pending: Seq<Token>)
        ensures
            Self::child_spec(m, name, pending).0.1 is Ok ==> consumes_element(
                pending,
                Self::child_spec(m, name, pending).1,
            ),
            is_rest_of(Self::child_spec(m, name, pending).1, pending),
    ;

    /// A fresh visitor, as each decode starts with.
    fn fresh() -> (visitor: Self)
        ensures
            visitor.model() == Self::initial(),
    ;

    /// Should return the expected starting tag name, if any
    fn start_name() -> (name: Option<&'static str>)
        ensures
            match name {
                Some(expected) => Self::expected_name() == Some(expected@),
                None => Self::expected_name() is None,
            },
    ;

    /// Visit the starting tag with the given name
    ///
    /// This is called exactly once during deserialization and will be called before any other `visit_*` methods.
    fn visit_tag(&mut self, name: &str) -> (r: std::result::Result<(), Error>)
        ensures
            (final(self).model(), outcome(r)) == Self::tag_spec(old(self).model(), name@),
    ;

    /// Visit an attribute with the given name and value
    fn visit_attribute(&mut self, name: &str, value: &str) -> (r: std::result::Result<(), Error>)
        ensures
            (final(self).model(), outcome(r)) == Self::attribute_spec(
                old(self).model(),
                name@,
                value@,
            ),
    ;

    /// Visit a child element with the given tag name
    ///
    /// Implementations must make sure the child element is read in some way. Most likely this will be either a
    /// [`reader.skip_element()`](PeekingReader::skip_element) or [`reader.deserialize()`](PeekingReader::deserialize)
    /// call.
    fn visit_child(&mut self, name: &str, reader: &mut PeekingReader) -> (r: std::result::Result<
        (),
        Error,
    >)
        ensures
            ((final(self).model(), outcome(r)), final(reader).pending()) == Self::child_spec(
                old(self).model(),
                name@,
                old(reader).pending(),
            ),
    ;

    /// Visit any plain text contained in the element
    ///
    /// May be called multiple times.
    fn visit_text(&mut self, text: &str) -> (r: std::result::Result<(), Error>)
        ensures
            (final(self).model(), outcome(r)) == Self::text_spec(old(self).model(), text@),
    ;

    /// Validate and build the output type
    fn build(self) -> (r: std::result::Result<Self::Output, Error>)
        ensures
            match r {
                Ok(output) => Self::build_spec(self.model()) == Ok::<Self::Value, ErrorView>(
                    Self::value(&output),
                ),
                Err(error) => Self::build_spec(self.model()) == Err::<Self::Value, ErrorView>(
                    error@,
                ),
            },
    ;
}

/// Mathematical content of the result of a build or of a decode.
pub open spec fn built<V: Visitor>(r: std::result::Result<V::Output, Error>) -> std::result::Result<
    V::Value,
    ErrorView,
> {
    match r {
        Ok(output) => Ok(V::value(&output)),
        Err(error) => Err(error@),
    }
}

/// Marks a type as being deserializable from XML
pub trait FromXml: Sized {
    /// The visitor to use to deserialize this type
    type Visitor: Visitor<Output = Self>;
}

} // verus!
