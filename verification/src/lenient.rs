//! Visitors that let pass what the visitor they wrap rejects as unexpected:
//! unknown attributes and unknown text are dropped, unknown child elements
//! are skipped.

use crate::error::{Error, ErrorView};
use crate::event::Token;
use crate::merge::{rejects_attribute, rejects_child, rejects_text};
use crate::nesting::consumes_element;
use crate::reader::{skip_consumes_element, skip_leaves_rest, skip_spec, PeekingReader};
use crate::visitor::{Step, Visitor};
use vstd::prelude::*;

verus! {

/// Accepts and drops each attribute that `V` rejects as unexpected.
pub struct AllowUnknownAttributes<V: Visitor> {
    inner: V,
}

impl<V: Visitor> Visitor for AllowUnknownAttributes<V> {
    type Output = V::Output;

    type Model = V::Model;

    type Value = V::Value;

    closed spec fn model(&self) -> Self::Model {
        self.inner.model()
    }

    open spec fn value(output: &V::Output) -> Self::Value {
        V::value(output)
    }

    open spec fn initial() -> Self::Model {
        V::initial()
    }

    open spec fn expected_name() -> Option<Seq<char>> {
        V::expected_name()
    }

    open spec fn tag_spec(m: Self::Model, name: Seq<char>) -> Step<Self::Model> {
        V::tag_spec(m, name)
    }

    open spec fn attribute_spec(m: Self::Model, name: Seq<char>, value: Seq<char>) -> Step<
        Self::Model,
    > {
        let step = V::attribute_spec(m, name, value);
        if rejects_attribute(step.1) {
            (step.0, Ok(()))
        } else {
            step
        }
    }

    open spec fn text_spec(m: Self::Model, text: Seq<char>) -> Step<Self::Model> {
        V::text_spec(m, text)
    }

    open spec fn child_spec(m: Self::Model, name: Seq<char>, pending: Seq<Token>) -> (
        Step<Self::Model>,
        Seq<Token>,
    ) {
        V::child_spec(m, name, pending)
    }

    open spec fn build_spec(m: Self::Model) -> std::result::Result<Self::Value, ErrorView> {
        V::build_spec(m)
    }

    proof fn child_is_consumed(m: Self::Model, name: Seq<char>, pending: Seq<Token>) {
        V::child_is_consumed(m, name, pending);
    }

    fn fresh() -> Self {
        AllowUnknownAttributes { inner: V::fresh() }
    }

    fn start_name() -> Option<&'static str> {
        V::start_name()
    }

    fn visit_tag(&mut self, name: &str) -> std::result::Result<(), Error> {
        self.inner.visit_tag(name)
    }

    fn visit_attribute(&mut self, name: &str, value: &str) -> std::result::Result<(), Error> {
        match self.inner.visit_attribute(name, value) {
            Err(Error::UnexpectedAttribute(_)) => Ok(()),
            r => r,
        }
    }

    fn visit_child(&mut self, name: &str, reader: &mut PeekingReader) -> std::result::Result<
        (),
        Error,
    > {
        self.inner.visit_child(name, reader)
    }

    fn visit_text(&mut self, text: &str) -> std::result::Result<(), Error> {
        self.inner.visit_text(text)
    }

    fn build(self) -> std::result::Result<V::Output, Error> {
        self.inner.build()
    }
}

/// Accepts and drops each text that `V` rejects as unexpected.
pub struct AllowUnknownText<V: Visitor> {
    inner: V,
}

impl<V: Visitor> Visitor for AllowUnknownText<V> {
    type Output = V::Output;

    type Model = V::Model;

    type Value = V::Value;

    closed spec fn model(&self) -> Self::Model {
        self.inner.model()
    }

    open spec fn value(output: &V::Output) -> Self::Value {
        V::value(output)
    }

    open spec fn initial() -> Self::Model {
        V::initial()
    }

    open spec fn expected_name() -> Option<Seq<char>> {
        V::expected_name()
    }

    open spec fn tag_spec(m: Self::Model, name: Seq<char>) -> Step<Self::Model> {
        V::tag_spec(m, name)
    }

    open spec fn attribute_spec(m: Self::Model, name: Seq<char>, value: Seq<char>) -> Step<
        Self::Model,
    > {
        V::attribute_spec(m, name, value)
    }

    open spec fn text_spec(m: Self::Model, text: Seq<char>) -> Step<Self::Model> {
        let step = V::text_spec(m, text);
        if rejects_text(step.1) {
            (step.0, Ok(()))
        } else {
            step
        }
    }

    open spec fn child_spec(m: Self::Model, name: Seq<char>, pending: Seq<Token>) -> (
        Step<Self::Model>,
        Seq<Token>,
    ) {
        V::child_spec(m, name, pending)
    }

    open spec fn build_spec(m: Self::Model) -> std::result::Result<Self::Value, ErrorView> {
        V::build_spec(m)
    }

    proof fn child_is_consumed(m: Self::Model, name: Seq<char>, pending: Seq<Token>) {
        V::child_is_consumed(m, name, pending);
    }

    fn fresh() -> Self {
        AllowUnknownText { inner: V::fresh() }
    }

    fn start_name() -> Option<&'static str> {
        V::start_name()
    }

    fn visit_tag(&mut self, name: &str) -> std::result::Result<(), Error> {
        self.inner.visit_tag(name)
    }

    fn visit_attribute(&mut self, name: &str, value: &str) -> std::result::Result<(), Error> {
        self.inner.visit_attribute(name, value)
    }

    fn visit_child(&mut self, name: &str, reader: &mut PeekingReader) -> std::result::Result<
        (),
        Error,
    > {
        self.inner.visit_child(name, reader)
    }

    fn visit_text(&mut self, text: &str) -> std::result::Result<(), Error> {
        match self.inner.visit_text(text) {
            Err(Error::UnexpectedText) => Ok(()),
            r => r,
        }
    }

    fn build(self) -> std::result::Result<V::Output, Error> {
        self.inner.build()
    }
}

/// Skips each child element that `V` rejects as unexpected without taking
/// anything from the reader: the child is consumed with all that it holds.
pub struct AllowUnknownChildren<V: Visitor> {
    inner: V,
}

impl<V: Visitor> Visitor for AllowUnknownChildren<V> {
    type Output = V::Output;

    type Model = V::Model;

    type Value = V::Value;

    closed spec fn model(&self) -> Self::Model {
        self.inner.model()
    }

    open spec fn value(output: &V::Output) -> Self::Value {
        V::value(output)
    }

    open spec fn initial() -> Self::Model {
        V::initial()
    }

    open spec fn expected_name() -> Option<Seq<char>> {
        V::expected_name()
    }

    open spec fn tag_spec(m: Self::Model, name: Seq<char>) -> Step<Self::Model> {
        V::tag_spec(m, name)
    }

    open spec fn attribute_spec(m: Self::Model, name: Seq<char>, value: Seq<char>) -> Step<
        Self::Model,
    > {
        V::attribute_spec(m, name, value)
    }

    open spec fn text_spec(m: Self::Model, text: Seq<char>) -> Step<Self::Model> {
        V::text_spec(m, text)
    }

    open spec fn child_spec(m: Self::Model, name: Seq<char>, pending: Seq<Token>) -> (
        Step<Self::Model>,
        Seq<Token>,
    ) {
        let (step, rest) = V::child_spec(m, name, pending);
        if rejects_child(step.1) && rest.len() == pending.len() {
            let (skipped, rest) = skip_spec(pending);
            ((step.0, skipped), rest)
        } else {
            (step, rest)
        }
    }

    open spec fn build_spec(m: Self::Model) -> std::result::Result<Self::Value, ErrorView> {
        V::build_spec(m)
    }

    proof fn child_is_consumed(m: Self::Model, name: Seq<char>, pending: Seq<Token>) {
        V::child_is_consumed(m, name, pending);
        skip_leaves_rest(pending);
        if skip_spec(pending).0 is Ok {
            skip_consumes_element(pending);
        }
    }

    fn fresh() -> Self {
        AllowUnknownChildren { inner: V::fresh() }
    }

    fn start_name() -> Option<&'static str> {
        V::start_name()
    }

    fn visit_tag(&mut self, name: &str) -> std::result::Result<(), Error> {
        self.inner.visit_tag(name)
    }

    fn visit_attribute(&mut self, name: &str, value: &str) -> std::result::Result<(), Error> {
        self.inner.visit_attribute(name, value)
    }

    fn visit_child(&mut self, name: &str, reader: &mut PeekingReader) -> std::result::Result<
        (),
        Error,
    > {
        let before: u128 = reader.remaining();
        match self.inner.visit_child(name, reader) {
            Err(Error::UnexpectedChild(rejected)) => {
                proof {
                    V::child_is_consumed(old(self).model(), name@, old(reader).pending());
                }
                if reader.remaining() == before {
                    assert(reader.pending() =~= old(reader).pending());
                    reader.skip_element()
                } else {
                    Err(Error::UnexpectedChild(rejected))
                }
            },
            r => r,
        }
    }

    fn visit_text(&mut self, text: &str) -> std::result::Result<(), Error> {
        self.inner.visit_text(text)
    }

    fn build(self) -> std::result::Result<V::Output, Error> {
        self.inner.build()
    }
}

/// A child that the inner visitor rejects untouched is skipped: the
/// outcome is the outcome of the skip, and a skip that succeeds has
/// consumed the child with all that it holds.
pub proof fn unknown_child_is_skipped<V: Visitor>(m: V::Model, name: Seq<char>, pending: Seq<Token>)
    requires
        rejects_child(V::child_spec(m, name, pending).0.1),
        V::child_spec(m, name, pending).1.len() == pending.len(),
    ensures
        AllowUnknownChildren::<V>::child_spec(m, name, pending).0.1 == skip_spec(pending).0,
        AllowUnknownChildren::<V>::child_spec(m, name, pending).1 == skip_spec(pending).1,
        skip_spec(pending).0 is Ok ==> consumes_element(
            pending,
            skip_spec(pending).1,
        ),
{
    if skip_spec(pending).0 is Ok {
        skip_consumes_element(pending);
    }
}

/// What the inner visitor rejects as unexpected passes, and what it
/// accepts or fails on for another reason stays as it is: an attribute
/// under [`AllowUnknownAttributes`], a text under [`AllowUnknownText`].
pub proof fn unknown_passes<V: Visitor>(m: V::Model, name: Seq<char>, value: Seq<char>)
    ensures
        AllowUnknownAttributes::<V>::attribute_spec(m, name, value).1 == if rejects_attribute(
            V::attribute_spec(m, name, value).1,
        ) {
            Ok::<(), ErrorView>(())
        } else {
            V::attribute_spec(m, name, value).1
        },
        AllowUnknownText::<V>::text_spec(m, value).1 == if rejects_text(V::text_spec(m, value).1) {
            Ok::<(), ErrorView>(())
        } else {
            V::text_spec(m, value).1
        },
        AllowUnknownAttributes::<V>::attribute_spec(m, name, value).0 == V::attribute_spec(
            m,
            name,
            value,
        ).0,
        AllowUnknownText::<V>::text_spec(m, value).0 == V::text_spec(m, value).0,
{
}

} // verus!
