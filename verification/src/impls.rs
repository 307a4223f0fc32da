//! The standard adapters: leaf conversion from text, optional presence, and
//! projection into another type.

use crate::error::{Error, ErrorView};
use crate::event::{EventView, Token};
use crate::nesting::skip_is_rest;
use crate::reader::{decode_spec, PeekingReader};
use crate::visitor::{FromXml, Step, Visitor};
use std::marker::PhantomData;
use vstd::prelude::*;
use vstd::string::StringExecFns;

verus! {

/// The rejection of an attribute that a visitor does not declare.
pub fn reject_attribute(name: &str) -> (r: std::result::Result<(), Error>)
    ensures
        r matches Err(error) && error@ == ErrorView::UnexpectedAttribute(name@),
{
    Err(Error::UnexpectedAttribute(name.to_owned()))
}

/// The rejection of a child element that a visitor does not declare. The
/// reader is left as it is.
pub fn reject_child(name: &str) -> (r: std::result::Result<(), Error>)
    ensures
        r matches Err(error) && error@ == ErrorView::UnexpectedChild(name@),
{
    Err(Error::UnexpectedChild(name.to_owned()))
}

/// The rejection of text by a visitor that declares none.
pub fn reject_text() -> (r: std::result::Result<(), Error>)
    ensures
        r matches Err(error) && error@ == ErrorView::UnexpectedText,
{
    Err(Error::UnexpectedText)
}

/// A type that is decoded from the text of an element or of an attribute by
/// a textual parse.
pub trait XmlFromStr: Sized {
    /// Mathematical content of a parsed value.
    type Value;

    /// The content of a value.
    spec fn value(&self) -> Self::Value;

    /// What the parse returns: the value, or the message of the failure.
    spec fn parse_spec(text: Seq<char>) -> std::result::Result<Self::Value, Seq<char>>;

    /// Parses a value from text.
    fn from_xml_str(text: &str) -> (r: std::result::Result<Self, String>)
        ensures
            match r {
                Ok(parsed) => Self::parse_spec(text@) == Ok::<Self::Value, Seq<char>>(
                    parsed.value(),
                ),
                Err(message) => Self::parse_spec(text@) == Err::<Self::Value, Seq<char>>(
                    message@,
                ),
            },
    ;
}

impl<T: XmlFromStr> FromXml for T {
    type Visitor = FromStringVisitor<T>;
}

/// The visitor of a leaf: it takes the element's text, once, and parses it.
pub struct FromStringVisitor<T: XmlFromStr> {
    data: Option<T>,
}

impl<T: XmlFromStr> Visitor for FromStringVisitor<T> {
    type Output = T;

    type Model = Option<T::Value>;

    type Value = T::Value;

    closed spec fn model(&self) -> Option<T::Value> {
        match self.data {
            Some(parsed) => Some(parsed.value()),
            None => None,
        }
    }

    open spec fn value(output: &T) -> T::Value {
        output.value()
    }

    open spec fn initial() -> Option<T::Value> {
        None
    }

    open spec fn expected_name() -> Option<Seq<char>> {
        None
    }

    open spec fn tag_spec(m: Option<T::Value>, name: Seq<char>) -> Step<Option<T::Value>> {
        (m, Ok(()))
    }

    open spec fn attribute_spec(m: Option<T::Value>, name: Seq<char>, value: Seq<char>) -> Step<
        Option<T::Value>,
    > {
        (m, Err(ErrorView::UnexpectedAttribute(name)))
    }

    open spec fn text_spec(m: Option<T::Value>, text: Seq<char>) -> Step<Option<T::Value>> {
        if m is Some {
            (m, Err(ErrorView::DoubleText))
        } else {
            match T::parse_spec(text) {
                Ok(parsed) => (Some(parsed), Ok(())),
                Err(message) => (m, Err(ErrorView::Deserialization(message))),
            }
        }
    }

    open spec fn child_spec(m: Option<T::Value>, name: Seq<char>, pending: Seq<Token>) -> (
        Step<Option<T::Value>>,
        Seq<Token>,
    ) {
        ((m, Err(ErrorView::UnexpectedChild(name))), pending)
    }

    open spec fn build_spec(m: Option<T::Value>) -> std::result::Result<T::Value, ErrorView> {
        match m {
            Some(parsed) => Ok(parsed),
            None => Err(ErrorView::MissingText),
        }
    }

    proof fn child_is_consumed(m: Option<T::Value>, name: Seq<char>, pending: Seq<Token>) {
        skip_is_rest(pending, 0);
    }

    fn fresh() -> Self {
        FromStringVisitor { data: None }
    }

    fn start_name() -> Option<&'static str> {
        None
    }

    fn visit_tag(&mut self, name: &str) -> std::result::Result<(), Error> {
        Ok(())
    }

    fn visit_attribute(&mut self, name: &str, value: &str) -> std::result::Result<(), Error> {
        reject_attribute(name)
    }

    fn visit_child(&mut self, name: &str, reader: &mut PeekingReader) -> std::result::Result<
        (),
        Error,
    > {
        reject_child(name)
    }

    fn visit_text(&mut self, text: &str) -> std::result::Result<(), Error> {
        if self.data.is_some() {
            return Err(Error::DoubleText);
        }
        match T::from_xml_str(text) {
            Ok(parsed) => {
                self.data = Some(parsed);
                Ok(())
            },
            Err(message) => Err(Error::Deserialization(message)),
        }
    }

    fn build(self) -> std::result::Result<T, Error> {
        match self.data {
            Some(data) => Ok(data),
            None => Err(Error::MissingText),
        }
    }
}

impl<T: FromXml> FromXml for Option<T> {
    type Visitor = OptionalVisitor<T>;
}

/// The visitor of an optional value. It forwards to the visitor of `T` and
/// remembers whether anything was handed to it. An element that gave it no
/// attribute, no text and no child decodes to `None`, and the visitor of
/// `T` is not asked to build. Once something was handed to it, it builds
/// what the visitor of `T` builds: the value, or the error of an element
/// that is there but not complete.
pub struct OptionalVisitor<T: FromXml> {
    empty: bool,
    inner_visitor: T::Visitor,
}

impl<T: FromXml> Visitor for OptionalVisitor<T> {
    type Output = Option<T>;

    /// Whether the visitor was touched, and the state of the inner visitor.
    type Model = (bool, <T::Visitor as Visitor>::Model);

    type Value = Option<<T::Visitor as Visitor>::Value>;

    closed spec fn model(&self) -> Self::Model {
        (!self.empty, self.inner_visitor.model())
    }

    open spec fn value(output: &Option<T>) -> Self::Value {
        match output {
            Some(inner) => Some(<T::Visitor as Visitor>::value(inner)),
            None => None,
        }
    }

    open spec fn initial() -> Self::Model {
        (false, <T::Visitor as Visitor>::initial())
    }

    open spec fn expected_name() -> Option<Seq<char>> {
        <T::Visitor as Visitor>::expected_name()
    }

    open spec fn tag_spec(m: Self::Model, name: Seq<char>) -> Step<Self::Model> {
        (m, Ok(()))
    }

    open spec fn attribute_spec(m: Self::Model, name: Seq<char>, value: Seq<char>) -> Step<
        Self::Model,
    > {
        let step = <T::Visitor as Visitor>::attribute_spec(m.1, name, value);
        ((true, step.0), step.1)
    }

    open spec fn text_spec(m: Self::Model, text: Seq<char>) -> Step<Self::Model> {
        let step = <T::Visitor as Visitor>::text_spec(m.1, text);
        ((true, step.0), step.1)
    }

    open spec fn child_spec(m: Self::Model, name: Seq<char>, pending: Seq<Token>) -> (
        Step<Self::Model>,
        Seq<Token>,
    ) {
        let (step, rest) = <T::Visitor as Visitor>::child_spec(m.1, name, pending);
        (((true, step.0), step.1), rest)
    }

    open spec fn build_spec(m: Self::Model) -> std::result::Result<Self::Value, ErrorView> {
        if !m.0 {
            Ok(None)
        } else {
            match <T::Visitor as Visitor>::build_spec(m.1) {
                Ok(inner) => Ok(Some(inner)),
                Err(error) => Err(error),
            }
        }
    }

    proof fn child_is_consumed(m: Self::Model, name: Seq<char>, pending: Seq<Token>) {
        <T::Visitor as Visitor>::child_is_consumed(m.1, name, pending);
    }

    fn fresh() -> Self {
        OptionalVisitor { empty: true, inner_visitor: T::Visitor::fresh() }
    }

    fn start_name() -> Option<&'static str> {
        T::Visitor::start_name()
    }

    fn visit_tag(&mut self, name: &str) -> std::result::Result<(), Error> {
        Ok(())
    }

    fn visit_attribute(&mut self, name: &str, value: &str) -> std::result::Result<(), Error> {
        self.empty = false;
        self.inner_visitor.visit_attribute(name, value)
    }

    fn visit_child(&mut self, name: &str, reader: &mut PeekingReader) -> std::result::Result<
        (),
        Error,
    > {
        self.empty = false;
        self.inner_visitor.visit_child(name, reader)
    }

    fn visit_text(&mut self, text: &str) -> std::result::Result<(), Error> {
        self.empty = false;
        self.inner_visitor.visit_text(text)
    }

    fn build(self) -> std::result::Result<Option<T>, Error> {
        if self.empty {
            return Ok(None);
        }
        match self.inner_visitor.build() {
            Ok(inner) => Ok(Some(inner)),
            Err(error) => Err(error),
        }
    }
}

/// Conversion of a decoded value into `Self` that cannot fail, described on
/// mathematical values.
pub trait FromDecoded<V: Visitor>: Sized {
    /// Mathematical content of a converted value.
    type Value;

    /// The content of a value.
    spec fn value(&self) -> Self::Value;

    /// What the conversion returns.
    spec fn convert_spec(source: V::Value) -> Self::Value;

    /// Converts what `V` built.
    fn convert(source: V::Output) -> (target: Self)
        ensures
            target.value() == Self::convert_spec(V::value(&source)),
    ;
}

/// Generic visitor for forwarding all calls to an inner visitor and converting into the target
/// type using its [`FromDecoded`] implementation.
pub struct FromVisitor<Target: FromDecoded<V>, V: Visitor> {
    inner: V,
    target: PhantomData<Target>,
}

impl<Target: FromDecoded<V>, V: Visitor> Visitor for FromVisitor<Target, V> {
    type Output = Target;

    type Model = V::Model;

    type Value = Target::Value;

    closed spec fn model(&self) -> Self::Model {
        self.inner.model()
    }

    open spec fn value(output: &Target) -> Self::Value {
        output.value()
    }

    open spec fn initial() -> Self::Model {
        V::initial()
    }

    open spec fn expected_name() -> Option<Seq<char>> {
        None
    }

    open spec fn tag_spec(m: Self::Model, name: Seq<char>) -> Step<Self::Model> {
        V::tag_spec(m, name)
    }

    open spec fn attribute_spec(m: Self::Model, name: Seq<char>, value: Seq<char>) -> Step<
        Self::Model,
    > {
        V::attribute_spec(m, name, value)
    }

    open spec fn text_spec(m: Self::Model, text: Seq<char>) -> Step<Self::Model> {
        V::text_spec(m, text)
    }

    open spec fn child_spec(m: Self::Model, name: Seq<char>, pending: Seq<Token>) -> (
        Step<Self::Model>,
        Seq<Token>,
    ) {
        V::child_spec(m, name, pending)
    }

    open spec fn build_spec(m: Self::Model) -> std::result::Result<Self::Value, ErrorView> {
        match V::build_spec(m) {
            Ok(source) => Ok(Target::convert_spec(source)),
            Err(error) => Err(error),
        }
    }

    proof fn child_is_consumed(m: Self::Model, name: Seq<char>, pending: Seq<Token>) {
        V::child_is_consumed(m, name, pending);
    }

    fn fresh() -> Self {
        FromVisitor { inner: V::fresh(), target: PhantomData }
    }

    fn start_name() -> Option<&'static str> {
        None
    }

    fn visit_tag(&mut self, name: &str) -> std::result::Result<(), Error> {
        self.inner.visit_tag(name)
    }

    fn visit_attribute(&mut self, name: &str, value: &str) -> std::result::Result<(), Error> {
        self.inner.visit_attribute(name, value)
    }

    fn visit_child(&mut self, name: &str, reader: &mut PeekingReader) -> std::result::Result<
        (),
        Error,
    > {
        self.inner.visit_child(name, reader)
    }

    fn visit_text(&mut self, text: &str) -> std::result::Result<(), Error> {
        self.inner.visit_text(text)
    }

    fn build(self) -> std::result::Result<Target, Error> {
        match self.inner.build() {
            Ok(source) => Ok(Target::convert(source)),
            Err(error) => Err(error),
        }
    }
}

/// Conversion of a decoded value into `Self` that can fail with a message,
/// described on mathematical values.
pub trait TryFromDecoded<V: Visitor>: Sized {
    /// Mathematical content of a converted value.
    type Value;

    /// The content of a value.
    spec fn value(&self) -> Self::Value;

    /// What the conversion returns: the value, or the message of the
    /// failure.
    spec fn try_convert_spec(source: V::Value) -> std::result::Result<Self::Value, Seq<char>>;

    /// Converts what `V` built.
    fn try_convert(source: V::Output) -> (r: std::result::Result<Self, String>)
        ensures
            match r {
                Ok(target) => Self::try_convert_spec(V::value(&source)) == Ok::<
                    Self::Value,
                    Seq<char>,
                >(target.value()),
                Err(message) => Self::try_convert_spec(V::value(&source)) == Err::<
                    Self::Value,
                    Seq<char>,
                >(message@),
            },
    ;
}

/// The message of the error for a conversion that failed with `message`.
pub open spec fn conversion_message(message: Seq<char>) -> Seq<char> {
    "error converting: "@ + message
}

/// Generic visitor for forwarding all calls to an inner visitor and converting into the target
/// type using its [`TryFromDecoded`] implementation.
pub struct TryFromVisitor<Target: TryFromDecoded<V>, V: Visitor> {
    inner: V,
    target: PhantomData<Target>,
}

impl<Target: TryFromDecoded<V>, V: Visitor> Visitor for TryFromVisitor<Target, V> {
    type Output = Target;

    type Model = V::Model;

    type Value = Target::Value;

    closed spec fn model(&self) -> Self::Model {
        self.inner.model()
    }

    open spec fn value(output: &Target) -> Self::Value {
        output.value()
    }

    open spec fn initial() -> Self::Model {
        V::initial()
    }

    open spec fn expected_name() -> Option<Seq<char>> {
        None
    }

    open spec fn tag_spec(m: Self::Model, name: Seq<char>) -> Step<Self::Model> {
        V::tag_spec(m, name)
    }

    open spec fn attribute_spec(m: Self::Model, name: Seq<char>, value: Seq<char>) -> Step<
        Self::Model,
    > {
        V::attribute_spec(m, name, value)
    }

    open spec fn text_spec(m: Self::Model, text: Seq<char>) -> Step<Self::Model> {
        V::text_spec(m, text)
    }

    open spec fn child_spec(m: Self::Model, name: Seq<char>, pending: Seq<Token>) -> (
        Step<Self::Model>,
        Seq<Token>,
    ) {
        V::child_spec(m, name, pending)
    }

    open spec fn build_spec(m: Self::Model) -> std::result::Result<Self::Value, ErrorView> {
        match V::build_spec(m) {
            Ok(source) => match Target::try_convert_spec(source) {
                Ok(target) => Ok(target),
                Err(message) => Err(ErrorView::Deserialization(conversion_message(message))),
            },
            Err(error) => Err(error),
        }
    }

    proof fn child_is_consumed(m: Self::Model, name: Seq<char>, pending: Seq<Token>) {
        V::child_is_consumed(m, name, pending);
    }

    fn fresh() -> Self {
        TryFromVisitor { inner: V::fresh(), target: PhantomData }
    }

    fn start_name() -> Option<&'static str> {
        None
    }

    fn visit_tag(&mut self, name: &str) -> std::result::Result<(), Error> {
        self.inner.visit_tag(name)
    }

    fn visit_attribute(&mut self, name: &str, value: &str) -> std::result::Result<(), Error> {
        self.inner.visit_attribute(name, value)
    }

    fn visit_child(&mut self, name: &str, reader: &mut PeekingReader) -> std::result::Result<
        (),
        Error,
    > {
        self.inner.visit_child(name, reader)
    }

    fn visit_text(&mut self, text: &str) -> std::result::Result<(), Error> {
        self.inner.visit_text(text)
    }

    fn build(self) -> std::result::Result<Target, Error> {
        match self.inner.build() {
            Ok(source) => match Target::try_convert(source) {
                Ok(target) => Ok(target),
                Err(message) => {
                    let mut text = "error converting: ".to_owned();
                    text.append(message.as_str());
                    Err(Error::Deserialization(text))
                },
            },
            Err(error) => Err(error),
        }
    }
}

/// An optional value that was handed nothing is absent, whatever the inner
/// visitor would build.
pub proof fn untouched_is_absent<T: FromXml>(m: (bool, <T::Visitor as Visitor>::Model))
    requires
        !m.0,
    ensures
        OptionalVisitor::<T>::build_spec(m) == Ok::<
            Option<<T::Visitor as Visitor>::Value>,
            ErrorView,
        >(None),
{
}

/// An optional value that was handed something is what the inner visitor
/// builds: present with its value, or its error.
pub proof fn touched_follows_inner<T: FromXml>(m: (bool, <T::Visitor as Visitor>::Model))
    requires
        m.0,
    ensures
        OptionalVisitor::<T>::build_spec(m) == match <T::Visitor as Visitor>::build_spec(m.1) {
            Ok(inner) => Ok::<Option<<T::Visitor as Visitor>::Value>, ErrorView>(Some(inner)),
            Err(error) => Err(error),
        },
{
}

/// Every attribute, text and child that an optional value is handed marks
/// it as touched, whether the inner visitor accepts it or not.
pub proof fn every_visit_touches<T: FromXml>(
    m: (bool, <T::Visitor as Visitor>::Model),
    name: Seq<char>,
    text: Seq<char>,
    pending: Seq<Token>,
)
    ensures
        OptionalVisitor::<T>::attribute_spec(m, name, text).0.0,
        OptionalVisitor::<T>::text_spec(m, text).0.0,
        OptionalVisitor::<T>::child_spec(m, name, pending).0.0.0,
{
}

/// A leaf takes one text: a second one is an error, and the value of the
/// first stays.
pub proof fn second_text_is_an_error<T: XmlFromStr>(m: Option<T::Value>, text: Seq<char>)
    requires
        m is Some,
    ensures
        FromStringVisitor::<T>::text_spec(m, text) == (
            m,
            Err::<(), ErrorView>(ErrorView::DoubleText),
        ),
{
}

/// A leaf rejects every attribute and every child, and leaves the reader
/// as it is.
pub proof fn leaf_rejects_the_rest<T: XmlFromStr>(
    m: Option<T::Value>,
    name: Seq<char>,
    value: Seq<char>,
    pending: Seq<Token>,
)
    ensures
        FromStringVisitor::<T>::attribute_spec(m, name, value) == (
            m,
            Err::<(), ErrorView>(ErrorView::UnexpectedAttribute(name)),
        ),
        FromStringVisitor::<T>::child_spec(m, name, pending) == (
            (m, Err::<(), ErrorView>(ErrorView::UnexpectedChild(name))),
            pending,
        ),
{
}

/// An element without attributes, text and children decodes to an absent
/// optional value, whatever the inner visitor requires: nothing was handed
/// to it.
pub proof fn element_without_content_is_absent<T: FromXml>(pending: Seq<Token>, name: Seq<char>)
    requires
        pending.len() >= 2,
        pending[0] == Token::Event(
            EventView::Start { name, attributes: Seq::empty(), malformed: false },
        ),
        pending[1] == Token::Event(EventView::End { name }),
        <T::Visitor as Visitor>::expected_name() is Some ==> <T::Visitor as Visitor>::expected_name()
            == Some(name),
    ensures
        decode_spec::<OptionalVisitor<T>>(pending) == (
            Ok::<Option<<T::Visitor as Visitor>::Value>, ErrorView>(None),
            pending.skip(2),
        ),
{
    assert(pending.skip(1)[0] == pending[1]);
    assert(pending.skip(1).skip(1) =~= pending.skip(2));
}

} // verus!
