//! Visitors for the single fields of an element: a named attribute, the
//! text, a named child, and a named child that may repeat. Merged, they
//! make up the visitor of a struct.

use crate::error::{Error, ErrorView};
use crate::escape::same_text;
use crate::event::Token;
use crate::impls::{reject_attribute, reject_child, reject_text, OptionalVisitor};
use crate::nesting::skip_is_rest;
use crate::reader::{decode_consumes_element, decode_leaves_rest, decode_spec, PeekingReader};
use crate::visitor::{FromXml, Step, Visitor};
use std::marker::PhantomData;
use vstd::prelude::*;

verus! {

/// A name that is fixed by a type: the name of a tag, of an attribute or of
/// a child.
pub trait Label {
    /// The name.
    spec fn text() -> Seq<char>;

    /// The name.
    fn name() -> (name: &'static str)
        ensures
            name@ == Self::text(),
    ;
}

/// The content of a value, of the type that `T`'s visitor builds.
pub type ValueOf<T> = <<T as FromXml>::Visitor as Visitor>::Value;

/// The content of an output of `T`'s visitor.
pub open spec fn value_of<T: FromXml>(output: T) -> ValueOf<T> {
    <T::Visitor as Visitor>::value(&output)
}

/// The content of an optional output of `T`'s visitor.
pub open spec fn option_value<T: FromXml>(output: Option<T>) -> Option<ValueOf<T>> {
    match output {
        Some(inner) => Some(<T::Visitor as Visitor>::value(&inner)),
        None => None,
    }
}

/// What decoding a `T` from a text alone returns: a fresh visitor is handed
/// the text and then builds.
pub open spec fn text_decode_spec<T: FromXml>(text: Seq<char>) -> std::result::Result<
    ValueOf<T>,
    ErrorView,
> {
    let step = <T::Visitor as Visitor>::text_spec(<T::Visitor as Visitor>::initial(), text);
    match step.1 {
        Err(error) => Err(error),
        Ok(()) => <T::Visitor as Visitor>::build_spec(step.0),
    }
}

/// Decodes a `T` from a text alone, as for the value of an attribute.
pub fn decode_text<T: FromXml>(text: &str) -> (r: std::result::Result<T, Error>)
    ensures
        match r {
            Ok(output) => text_decode_spec::<T>(text@) == Ok::<ValueOf<T>, ErrorView>(
                <T::Visitor as Visitor>::value(&output),
            ),
            Err(error) => text_decode_spec::<T>(text@) == Err::<ValueOf<T>, ErrorView>(error@),
        },
{
    let mut visitor = T::Visitor::fresh();
    match visitor.visit_text(text) {
        Err(error) => Err(error),
        Ok(()) => visitor.build(),
    }
}

/// The attribute named `L`, decoded into a `T`. Any other attribute, any
/// text and any child is rejected as unexpected.
pub struct Attr<L: Label, T: FromXml> {
    value: Option<T>,
    label: PhantomData<L>,
}

impl<L: Label, T: FromXml> Visitor for Attr<L, T> {
    type Output = Option<T>;

    type Model = Option<ValueOf<T>>;

    type Value = Option<ValueOf<T>>;

    closed spec fn model(&self) -> Self::Model {
        option_value::<T>(self.value)
    }

    open spec fn value(output: &Option<T>) -> Self::Value {
        option_value::<T>(*output)
    }

    open spec fn initial() -> Self::Model {
        None
    }

    open spec fn expected_name() -> Option<Seq<char>> {
        None
    }

    open spec fn tag_spec(m: Self::Model, name: Seq<char>) -> Step<Self::Model> {
        (m, Ok(()))
    }

    open spec fn attribute_spec(m: Self::Model, name: Seq<char>, value: Seq<char>) -> Step<
        Self::Model,
    > {
        if name == L::text() {
            match text_decode_spec::<T>(value) {
                Ok(decoded) => (Some(decoded), Ok(())),
                Err(error) => (m, Err(error)),
            }
        } else {
            (m, Err(ErrorView::UnexpectedAttribute(name)))
        }
    }

    open spec fn text_spec(m: Self::Model, text: Seq<char>) -> Step<Self::Model> {
        (m, Err(ErrorView::UnexpectedText))
    }

    open spec fn child_spec(m: Self::Model, name: Seq<char>, pending: Seq<Token>) -> (
        Step<Self::Model>,
        Seq<Token>,
    ) {
        ((m, Err(ErrorView::UnexpectedChild(name))), pending)
    }

    open spec fn build_spec(m: Self::Model) -> std::result::Result<Self::Value, ErrorView> {
        Ok(m)
    }

    proof fn child_is_consumed(m: Self::Model, name: Seq<char>, pending: Seq<Token>) {
        skip_is_rest(pending, 0);
    }

    fn fresh() -> Self {
        Attr { value: None, label: PhantomData }
    }

    fn start_name() -> Option<&'static str> {
        None
    }

    fn visit_tag(&mut self, name: &str) -> std::result::Result<(), Error> {
        Ok(())
    }

    fn visit_attribute(&mut self, name: &str, value: &str) -> std::result::Result<(), Error> {
        if same_text(name, L::name()) {
            match decode_text::<T>(value) {
                Ok(decoded) => {
                    self.value = Some(decoded);
                    Ok(())
                },
                Err(error) => Err(error),
            }
        } else {
            reject_attribute(name)
        }
    }

    fn visit_child(&mut self, name: &str, reader: &mut PeekingReader) -> std::result::Result<
        (),
        Error,
    > {
        reject_child(name)
    }

    fn visit_text(&mut self, text: &str) -> std::result::Result<(), Error> {
        reject_text()
    }

    fn build(self) -> std::result::Result<Option<T>, Error> {
        Ok(self.value)
    }
}

/// The text of the element, decoded into a `T`. A second text is an error.
/// Any attribute and any child is rejected as unexpected.
pub struct Text<T: FromXml> {
    value: Option<T>,
}

impl<T: FromXml> Visitor for Text<T> {
    type Output = Option<T>;

    type Model = Option<ValueOf<T>>;

    type Value = Option<ValueOf<T>>;

    closed spec fn model(&self) -> Self::Model {
        option_value::<T>(self.value)
    }

    open spec fn value(output: &Option<T>) -> Self::Value {
        option_value::<T>(*output)
    }

    open spec fn initial() -> Self::Model {
        None
    }

    open spec fn expected_name() -> Option<Seq<char>> {
        None
    }

    open spec fn tag_spec(m: Self::Model, name: Seq<char>) -> Step<Self::Model> {
        (m, Ok(()))
    }

    open spec fn attribute_spec(m: Self::Model, name: Seq<char>, value: Seq<char>) -> Step<
        Self::Model,
    > {
        (m, Err(ErrorView::UnexpectedAttribute(name)))
    }

    open spec fn text_spec(m: Self::Model, text: Seq<char>) -> Step<Self::Model> {
        match text_decode_spec::<T>(text) {
            Err(error) => (m, Err(error)),
            Ok(decoded) => if m is Some {
                (Some(decoded), Err(ErrorView::DoubleText))
            } else {
                (Some(decoded), Ok(()))
            },
        }
    }

    open spec fn child_spec(m: Self::Model, name: Seq<char>, pending: Seq<Token>) -> (
        Step<Self::Model>,
        Seq<Token>,
    ) {
        ((m, Err(ErrorView::UnexpectedChild(name))), pending)
    }

    open spec fn build_spec(m: Self::Model) -> std::result::Result<Self::Value, ErrorView> {
        Ok(m)
    }

    proof fn child_is_consumed(m: Self::Model, name: Seq<char>, pending: Seq<Token>) {
        skip_is_rest(pending, 0);
    }

    fn fresh() -> Self {
        Text { value: None }
    }

    fn start_name() -> Option<&'static str> {
        None
    }

    fn visit_tag(&mut self, name: &str) -> std::result::Result<(), Error> {
        Ok(())
    }

    fn visit_attribute(&mut self, name: &str, value: &str) -> std::result::Result<(), Error> {
        reject_attribute(name)
    }

    fn visit_child(&mut self, name: &str, reader: &mut PeekingReader) -> std::result::Result<
        (),
        Error,
    > {
        reject_child(name)
    }

    fn visit_text(&mut self, text: &str) -> std::result::Result<(), Error> {
        match decode_text::<T>(text) {
            Err(error) => Err(error),
            Ok(decoded) => {
                let double = self.value.is_some();
                self.value = Some(decoded);
                if double {
                    Err(Error::DoubleText)
                } else {
                    Ok(())
                }
            },
        }
    }

    fn build(self) -> std::result::Result<Option<T>, Error> {
        Ok(self.value)
    }
}

/// The child element named `L`, decoded into a `T`. A second child of that
/// name is an error. Any other child, any attribute and any text is
/// rejected as unexpected.
pub struct Child<L: Label, T: FromXml> {
    value: Option<T>,
    label: PhantomData<L>,
}

impl<L: Label, T: FromXml> Visitor for Child<L, T> {
    type Output = Option<T>;

    type Model = Option<ValueOf<T>>;

    type Value = Option<ValueOf<T>>;

    closed spec fn model(&self) -> Self::Model {
        option_value::<T>(self.value)
    }

    open spec fn value(output: &Option<T>) -> Self::Value {
        option_value::<T>(*output)
    }

    open spec fn initial() -> Self::Model {
        None
    }

    open spec fn expected_name() -> Option<Seq<char>> {
        None
    }

    open spec fn tag_spec(m: Self::Model, name: Seq<char>) -> Step<Self::Model> {
        (m, Ok(()))
    }

    open spec fn attribute_spec(m: Self::Model, name: Seq<char>, value: Seq<char>) -> Step<
        Self::Model,
    > {
        (m, Err(ErrorView::UnexpectedAttribute(name)))
    }

    open spec fn text_spec(m: Self::Model, text: Seq<char>) -> Step<Self::Model> {
        (m, Err(ErrorView::UnexpectedText))
    }

    open spec fn child_spec(m: Self::Model, name: Seq<char>, pending: Seq<Token>) -> (
        Step<Self::Model>,
        Seq<Token>,
    ) {
        if name != L::text() {
            ((m, Err(ErrorView::UnexpectedChild(name))), pending)
        } else if m is Some {
            ((m, Err(ErrorView::DoubleChild(name))), pending)
        } else {
            let (decoded, rest) = decode_spec::<T::Visitor>(pending);
            match decoded {
                Ok(child) => ((Some(child), Ok(())), rest),
                Err(error) => ((m, Err(error)), rest),
            }
        }
    }

    open spec fn build_spec(m: Self::Model) -> std::result::Result<Self::Value, ErrorView> {
        Ok(m)
    }

    proof fn child_is_consumed(m: Self::Model, name: Seq<char>, pending: Seq<Token>) {
        skip_is_rest(pending, 0);
        decode_leaves_rest::<T::Visitor>(pending);
        if decode_spec::<T::Visitor>(pending).0 is Ok {
            decode_consumes_element::<T::Visitor>(pending);
        }
    }

    fn fresh() -> Self {
        Child { value: None, label: PhantomData }
    }

    fn start_name() -> Option<&'static str> {
        None
    }

    fn visit_tag(&mut self, name: &str) -> std::result::Result<(), Error> {
        Ok(())
    }

    fn visit_attribute(&mut self, name: &str, value: &str) -> std::result::Result<(), Error> {
        reject_attribute(name)
    }

    fn visit_child(&mut self, name: &str, reader: &mut PeekingReader) -> std::result::Result<
        (),
        Error,
    > {
        if !same_text(name, L::name()) {
            return reject_child(name);
        }
        if self.value.is_some() {
            return Err(Error::DoubleChild(name.to_owned()));
        }
        match reader.deserialize::<T>() {
            Ok(child) => {
                self.value = Some(child);
                Ok(())
            },
            Err(error) => Err(error),
        }
    }

    fn visit_text(&mut self, text: &str) -> std::result::Result<(), Error> {
        reject_text()
    }

    fn build(self) -> std::result::Result<Option<T>, Error> {
        Ok(self.value)
    }
}

/// The child elements named `L`, each decoded into a `T`, in document
/// order. Any other child, any attribute and any text is rejected as
/// unexpected.
pub struct Children<L: Label, T: FromXml> {
    items: Vec<T>,
    label: PhantomData<L>,
}

/// The contents of the outputs of `T`'s visitor, in order.
pub open spec fn values_of<T: FromXml>(items: Seq<T>) -> Seq<ValueOf<T>> {
    Seq::new(items.len(), |i: int| <T::Visitor as Visitor>::value(&items[i]))
}

impl<L: Label, T: FromXml> Visitor for Children<L, T> {
    type Output = Vec<T>;

    type Model = Seq<ValueOf<T>>;

    type Value = Seq<ValueOf<T>>;

    closed spec fn model(&self) -> Self::Model {
        values_of::<T>(self.items@)
    }

    open spec fn value(output: &Vec<T>) -> Self::Value {
        values_of::<T>(output@)
    }

    open spec fn initial() -> Self::Model {
        Seq::empty()
    }

    open spec fn expected_name() -> Option<Seq<char>> {
        None
    }

    open spec fn tag_spec(m: Self::Model, name: Seq<char>) -> Step<Self::Model> {
        (m, Ok(()))
    }

    open spec fn attribute_spec(m: Self::Model, name: Seq<char>, value: Seq<char>) -> Step<
        Self::Model,
    > {
        (m, Err(ErrorView::UnexpectedAttribute(name)))
    }

    open spec fn text_spec(m: Self::Model, text: Seq<char>) -> Step<Self::Model> {
        (m, Err(ErrorView::UnexpectedText))
    }

    open spec fn child_spec(m: Self::Model, name: Seq<char>, pending: Seq<Token>) -> (
        Step<Self::Model>,
        Seq<Token>,
    ) {
        if name != L::text() {
            ((m, Err(ErrorView::UnexpectedChild(name))), pending)
        } else {
            let (decoded, rest) = decode_spec::<T::Visitor>(pending);
            match decoded {
                Ok(child) => ((m.push(child), Ok(())), rest),
                Err(error) => ((m, Err(error)), rest),
            }
        }
    }

    open spec fn build_spec(m: Self::Model) -> std::result::Result<Self::Value, ErrorView> {
        Ok(m)
    }

    proof fn child_is_consumed(m: Self::Model, name: Seq<char>, pending: Seq<Token>) {
        skip_is_rest(pending, 0);
        decode_leaves_rest::<T::Visitor>(pending);
        if decode_spec::<T::Visitor>(pending).0 is Ok {
            decode_consumes_element::<T::Visitor>(pending);
        }
    }

    fn fresh() -> Self {
        let visitor = Children { items: Vec::new(), label: PhantomData };
        assert(visitor.model() =~= Self::initial());
        visitor
    }

    fn start_name() -> Option<&'static str> {
        None
    }

    fn visit_tag(&mut self, name: &str) -> std::result::Result<(), Error> {
        Ok(())
    }

    fn visit_attribute(&mut self, name: &str, value: &str) -> std::result::Result<(), Error> {
        reject_attribute(name)
    }

    fn visit_child(&mut self, name: &str, reader: &mut PeekingReader) -> std::result::Result<
        (),
        Error,
    > {
        if !same_text(name, L::name()) {
            return reject_child(name);
        }
        match reader.deserialize::<T>() {
            Ok(child) => {
                self.items.push(child);
                assert(self.model() =~= old(self).model().push(
                    <T::Visitor as Visitor>::value(&child),
                ));
                Ok(())
            },
            Err(error) => Err(error),
        }
    }

    fn visit_text(&mut self, text: &str) -> std::result::Result<(), Error> {
        reject_text()
    }

    fn build(self) -> std::result::Result<Vec<T>, Error> {
        Ok(self.items)
    }
}

/// The child element named `L`, decoded into an optional `T`: a child that
/// hands nothing to the visitor of `T` gives `None`, as a missing child
/// does. A second child of that name is an error once one gave a value.
pub struct OptChild<L: Label, T: FromXml> {
    value: Option<T>,
    label: PhantomData<L>,
}

impl<L: Label, T: FromXml> Visitor for OptChild<L, T> {
    type Output = Option<T>;

    type Model = Option<ValueOf<T>>;

    type Value = Option<ValueOf<T>>;

    closed spec fn model(&self) -> Self::Model {
        option_value::<T>(self.value)
    }

    open spec fn value(output: &Option<T>) -> Self::Value {
        option_value::<T>(*output)
    }

    open spec fn initial() -> Self::Model {
        None
    }

    open spec fn expected_name() -> Option<Seq<char>> {
        None
    }

    open spec fn tag_spec(m: Self::Model, name: Seq<char>) -> Step<Self::Model> {
        (m, Ok(()))
    }

    open spec fn attribute_spec(m: Self::Model, name: Seq<char>, value: Seq<char>) -> Step<
        Self::Model,
    > {
        (m, Err(ErrorView::UnexpectedAttribute(name)))
    }

    open spec fn text_spec(m: Self::Model, text: Seq<char>) -> Step<Self::Model> {
        (m, Err(ErrorView::UnexpectedText))
    }

    open spec fn child_spec(m: Self::Model, name: Seq<char>, pending: Seq<Token>) -> (
        Step<Self::Model>,
        Seq<Token>,
    ) {
        if name != L::text() {
            ((m, Err(ErrorView::UnexpectedChild(name))), pending)
        } else if m is Some {
            ((m, Err(ErrorView::DoubleChild(name))), pending)
        } else {
            let (decoded, rest) = decode_spec::<OptionalVisitor<T>>(pending);
            match decoded {
                Ok(child) => ((child, Ok(())), rest),
                Err(error) => ((m, Err(error)), rest),
            }
        }
    }

    open spec fn build_spec(m: Self::Model) -> std::result::Result<Self::Value, ErrorView> {
        Ok(m)
    }

    proof fn child_is_consumed(m: Self::Model, name: Seq<char>, pending: Seq<Token>) {
        skip_is_rest(pending, 0);
        decode_leaves_rest::<OptionalVisitor<T>>(pending);
        if decode_spec::<OptionalVisitor<T>>(pending).0 is Ok {
            decode_consumes_element::<OptionalVisitor<T>>(pending);
        }
    }

    fn fresh() -> Self {
        OptChild { value: None, label: PhantomData }
    }

    fn start_name() -> Option<&'static str> {
        None
    }

    fn visit_tag(&mut self, name: &str) -> std::result::Result<(), Error> {
        Ok(())
    }

    fn visit_attribute(&mut self, name: &str, value: &str) -> std::result::Result<(), Error> {
        reject_attribute(name)
    }

    fn visit_child(&mut self, name: &str, reader: &mut PeekingReader) -> std::result::Result<
        (),
        Error,
    > {
        if !same_text(name, L::name()) {
            return reject_child(name);
        }
        if self.value.is_some() {
            return Err(Error::DoubleChild(name.to_owned()));
        }
        match reader.deserialize::<Option<T>>() {
            Ok(child) => {
                self.value = child;
                Ok(())
            },
            Err(error) => Err(error),
        }
    }

    fn visit_text(&mut self, text: &str) -> std::result::Result<(), Error> {
        reject_text()
    }

    fn build(self) -> std::result::Result<Option<T>, Error> {
        Ok(self.value)
    }
}

/// A visitor of one field that may be left without a value, and the error
/// that says so.
pub trait Slot: Visitor {
    /// The type of the field's value.
    type Item;

    /// Mathematical content of the field's value.
    type ItemValue;

    /// The content of a value.
    spec fn item_value(item: &Self::Item) -> Self::ItemValue;

    /// The value that the visitor built, if it got one.
    spec fn filled(value: Self::Value) -> Option<Self::ItemValue>;

    /// The error for a field without a value.
    spec fn missing() -> ErrorView;

    /// The error for a field without a value.
    fn missing_error() -> (error: Error)
        ensures
            error@ == Self::missing(),
    ;

    /// The value that the visitor built, if it got one.
    fn into_item(output: Self::Output) -> (item: Option<Self::Item>)
        ensures
            match item {
                Some(inner) => Self::filled(Self::value(&output)) == Some(
                    Self::item_value(&inner),
                ),
                None => Self::filled(Self::value(&output)) is None,
            },
    ;
}

impl<L: Label, T: FromXml> Slot for Attr<L, T> {
    type Item = T;

    type ItemValue = ValueOf<T>;

    open spec fn item_value(item: &T) -> ValueOf<T> {
        <T::Visitor as Visitor>::value(item)
    }

    open spec fn filled(value: Option<ValueOf<T>>) -> Option<ValueOf<T>> {
        value
    }

    open spec fn missing() -> ErrorView {
        ErrorView::MissingAttribute(L::text())
    }

    fn missing_error() -> Error {
        Error::MissingAttribute(L::name().to_owned())
    }

    fn into_item(output: Option<T>) -> Option<T> {
        output
    }
}

impl<L: Label, T: FromXml> Slot for Child<L, T> {
    type Item = T;

    type ItemValue = ValueOf<T>;

    open spec fn item_value(item: &T) -> ValueOf<T> {
        <T::Visitor as Visitor>::value(item)
    }

    open spec fn filled(value: Option<ValueOf<T>>) -> Option<ValueOf<T>> {
        value
    }

    open spec fn missing() -> ErrorView {
        ErrorView::MissingChild(L::text())
    }

    fn missing_error() -> Error {
        Error::MissingChild(L::name().to_owned())
    }

    fn into_item(output: Option<T>) -> Option<T> {
        output
    }
}

impl<T: FromXml> Slot for Text<T> {
    type Item = T;

    type ItemValue = ValueOf<T>;

    open spec fn item_value(item: &T) -> ValueOf<T> {
        <T::Visitor as Visitor>::value(item)
    }

    open spec fn filled(value: Option<ValueOf<T>>) -> Option<ValueOf<T>> {
        value
    }

    open spec fn missing() -> ErrorView {
        ErrorView::MissingText
    }

    fn missing_error() -> Error {
        Error::MissingText
    }

    fn into_item(output: Option<T>) -> Option<T> {
        output
    }
}

/// A field that must have a value: the build fails with the slot's error
/// where it has none.
pub struct Required<S: Slot> {
    slot: S,
}

impl<S: Slot> Visitor for Required<S> {
    type Output = S::Item;

    type Model = S::Model;

    type Value = S::ItemValue;

    closed spec fn model(&self) -> Self::Model {
        self.slot.model()
    }

    open spec fn value(output: &S::Item) -> Self::Value {
        S::item_value(output)
    }

    open spec fn initial() -> Self::Model {
        S::initial()
    }

    open spec fn expected_name() -> Option<Seq<char>> {
        S::expected_name()
    }

    open spec fn tag_spec(m: Self::Model, name: Seq<char>) -> Step<Self::Model> {
        S::tag_spec(m, name)
    }

    open spec fn attribute_spec(m: Self::Model, name: Seq<char>, value: Seq<char>) -> Step<
        Self::Model,
    > {
        S::attribute_spec(m, name, value)
    }

    open spec fn text_spec(m: Self::Model, text: Seq<char>) -> Step<Self::Model> {
        S::text_spec(m, text)
    }

    open spec fn child_spec(m: Self::Model, name: Seq<char>, pending: Seq<Token>) -> (
        Step<Self::Model>,
        Seq<Token>,
    ) {
        S::child_spec(m, name, pending)
    }

    open spec fn build_spec(m: Self::Model) -> std::result::Result<Self::Value, ErrorView> {
        match S::build_spec(m) {
            Err(error) => Err(error),
            Ok(value) => match S::filled(value) {
                Some(item) => Ok(item),
                None => Err(S::missing()),
            },
        }
    }

    proof fn child_is_consumed(m: Self::Model, name: Seq<char>, pending: Seq<Token>) {
        S::child_is_consumed(m, name, pending);
    }

    fn fresh() -> Self {
        Required { slot: S::fresh() }
    }

    fn start_name() -> Option<&'static str> {
        S::start_name()
    }

    fn visit_tag(&mut self, name: &str) -> std::result::Result<(), Error> {
        self.slot.visit_tag(name)
    }

    fn visit_attribute(&mut self, name: &str, value: &str) -> std::result::Result<(), Error> {
        self.slot.visit_attribute(name, value)
    }

    fn visit_child(&mut self, name: &str, reader: &mut PeekingReader) -> std::result::Result<
        (),
        Error,
    > {
        self.slot.visit_child(name, reader)
    }

    fn visit_text(&mut self, text: &str) -> std::result::Result<(), Error> {
        self.slot.visit_text(text)
    }

    fn build(self) -> std::result::Result<S::Item, Error> {
        match self.slot.build() {
            Err(error) => Err(error),
            Ok(output) => match S::into_item(output) {
                Some(item) => Ok(item),
                None => Err(S::missing_error()),
            },
        }
    }
}

/// A value to use for a field that got none.
pub trait Fallback<S: Slot> {
    /// The content of the value.
    spec fn fallback() -> S::ItemValue;

    /// The value.
    fn make() -> (item: S::Item)
        ensures
            S::item_value(&item) == Self::fallback(),
    ;
}

/// A field with a fallback: where the slot got no value, the build gives
/// the value of `D`.
pub struct OrElse<S: Slot, D: Fallback<S>> {
    slot: S,
    fallback: PhantomData<D>,
}

impl<S: Slot, D: Fallback<S>> Visitor for OrElse<S, D> {
    type Output = S::Item;

    type Model = S::Model;

    type Value = S::ItemValue;

    closed spec fn model(&self) -> Self::Model {
        self.slot.model()
    }

    open spec fn value(output: &S::Item) -> Self::Value {
        S::item_value(output)
    }

    open spec fn initial() -> Self::Model {
        S::initial()
    }

    open spec fn expected_name() -> Option<Seq<char>> {
        S::expected_name()
    }

    open spec fn tag_spec(m: Self::Model, name: Seq<char>) -> Step<Self::Model> {
        S::tag_spec(m, name)
    }

    open spec fn attribute_spec(m: Self::Model, name: Seq<char>, value: Seq<char>) -> Step<
        Self::Model,
    > {
        S::attribute_spec(m, name, value)
    }

    open spec fn text_spec(m: Self::Model, text: Seq<char>) -> Step<Self::Model> {
        S::text_spec(m, text)
    }

    open spec fn child_spec(m: Self::Model, name: Seq<char>, pending: Seq<Token>) -> (
        Step<Self::Model>,
        Seq<Token>,
    ) {
        S::child_spec(m, name, pending)
    }

    open spec fn build_spec(m: Self::Model) -> std::result::Result<Self::Value, ErrorView> {
        match S::build_spec(m) {
            Err(error) => Err(error),
            Ok(value) => match S::filled(value) {
                Some(item) => Ok(item),
                None => Ok(D::fallback()),
            },
        }
    }

    proof fn child_is_consumed(m: Self::Model, name: Seq<char>, pending: Seq<Token>) {
        S::child_is_consumed(m, name, pending);
    }

    fn fresh() -> Self {
        OrElse { slot: S::fresh(), fallback: PhantomData }
    }

    fn start_name() -> Option<&'static str> {
        S::start_name()
    }

    fn visit_tag(&mut self, name: &str) -> std::result::Result<(), Error> {
        self.slot.visit_tag(name)
    }

    fn visit_attribute(&mut self, name: &str, value: &str) -> std::result::Result<(), Error> {
        self.slot.visit_attribute(name, value)
    }

    fn visit_child(&mut self, name: &str, reader: &mut PeekingReader) -> std::result::Result<
        (),
        Error,
    > {
        self.slot.visit_child(name, reader)
    }

    fn visit_text(&mut self, text: &str) -> std::result::Result<(), Error> {
        self.slot.visit_text(text)
    }

    fn build(self) -> std::result::Result<S::Item, Error> {
        match self.slot.build() {
            Err(error) => Err(error),
            Ok(output) => match S::into_item(output) {
                Some(item) => Ok(item),
                None => Ok(D::make()),
            },
        }
    }
}

/// A visitor for elements with the tag name `L` only: the decode of an
/// element of another name fails before anything is visited.
pub struct Tagged<L: Label, V: Visitor> {
    inner: V,
    label: PhantomData<L>,
}

impl<L: Label, V: Visitor> Visitor for Tagged<L, V> {
    type Output = V::Output;

    type Model = V::Model;

    type Value = V::Value;

    closed spec fn model(&self) -> Self::Model {
        self.inner.model()
    }

    open spec fn value(output: &V::Output) -> Self::Value {
        V::value(output)
    }

    open spec fn initial() -> Self::Model {
        V::initial()
    }

    open spec fn expected_name() -> Option<Seq<char>> {
        Some(L::text())
    }

    open spec fn tag_spec(m: Self::Model, name: Seq<char>) -> Step<Self::Model> {
        V::tag_spec(m, name)
    }

    open spec fn attribute_spec(m: Self::Model, name: Seq<char>, value: Seq<char>) -> Step<
        Self::Model,
    > {
        V::attribute_spec(m, name, value)
    }

    open spec fn text_spec(m: Self::Model, text: Seq<char>) -> Step<Self::Model> {
        V::text_spec(m, text)
    }

    open spec fn child_spec(m: Self::Model, name: Seq<char>, pending: Seq<Token>) -> (
        Step<Self::Model>,
        Seq<Token>,
    ) {
        V::child_spec(m, name, pending)
    }

    open spec fn build_spec(m: Self::Model) -> std::result::Result<Self::Value, ErrorView> {
        V::build_spec(m)
    }

    proof fn child_is_consumed(m: Self::Model, name: Seq<char>, pending: Seq<Token>) {
        V::child_is_consumed(m, name, pending);
    }

    fn fresh() -> Self {
        Tagged { inner: V::fresh(), label: PhantomData }
    }

    fn start_name() -> Option<&'static str> {
        Some(L::name())
    }

    fn visit_tag(&mut self, name: &str) -> std::result::Result<(), Error> {
        self.inner.visit_tag(name)
    }

    fn visit_attribute(&mut self, name: &str, value: &str) -> std::result::Result<(), Error> {
        self.inner.visit_attribute(name, value)
    }

    fn visit_child(&mut self, name: &str, reader: &mut PeekingReader) -> std::result::Result<
        (),
        Error,
    > {
        self.inner.visit_child(name, reader)
    }

    fn visit_text(&mut self, text: &str) -> std::result::Result<(), Error> {
        self.inner.visit_text(text)
    }

    fn build(self) -> std::result::Result<V::Output, Error> {
        self.inner.build()
    }
}

/// The visitor of an element without fields: it rejects every attribute,
/// text and child as unexpected, and builds the unit value.
pub struct NoFields {}

impl Visitor for NoFields {
    type Output = ();

    type Model = ();

    type Value = ();

    open spec fn model(&self) -> () {
        ()
    }

    open spec fn value(output: &()) -> () {
        ()
    }

    open spec fn initial() -> () {
        ()
    }

    open spec fn expected_name() -> Option<Seq<char>> {
        None
    }

    open spec fn tag_spec(m: (), name: Seq<char>) -> Step<()> {
        (m, Ok(()))
    }

    open spec fn attribute_spec(m: (), name: Seq<char>, value: Seq<char>) -> Step<()> {
        (m, Err(ErrorView::UnexpectedAttribute(name)))
    }

    open spec fn text_spec(m: (), text: Seq<char>) -> Step<()> {
        (m, Err(ErrorView::UnexpectedText))
    }

    open spec fn child_spec(m: (), name: Seq<char>, pending: Seq<Token>) -> (Step<()>, Seq<Token>) {
        ((m, Err(ErrorView::UnexpectedChild(name))), pending)
    }

    open spec fn build_spec(m: ()) -> std::result::Result<(), ErrorView> {
        Ok(())
    }

    proof fn child_is_consumed(m: (), name: Seq<char>, pending: Seq<Token>) {
        skip_is_rest(pending, 0);
    }

    fn fresh() -> Self {
        NoFields {  }
    }

    fn start_name() -> Option<&'static str> {
        None
    }

    fn visit_tag(&mut self, name: &str) -> std::result::Result<(), Error> {
        Ok(())
    }

    fn visit_attribute(&mut self, name: &str, value: &str) -> std::result::Result<(), Error> {
        reject_attribute(name)
    }

    fn visit_child(&mut self, name: &str, reader: &mut PeekingReader) -> std::result::Result<
        (),
        Error,
    > {
        reject_child(name)
    }

    fn visit_text(&mut self, text: &str) -> std::result::Result<(), Error> {
        reject_text()
    }

    fn build(self) -> std::result::Result<(), Error> {
        Ok(())
    }
}

/// Each child of the declared name that decodes is appended: the values
/// before it stay where they are, in document order.
pub proof fn accepted_child_is_appended<L: Label, T: FromXml>(
    m: Seq<ValueOf<T>>,
    pending: Seq<Token>,
)
    requires
        decode_spec::<T::Visitor>(pending).0 is Ok,
    ensures
        Children::<L, T>::child_spec(m, L::text(), pending).0.1 is Ok,
        Children::<L, T>::child_spec(m, L::text(), pending).0.0 == m.push(
            decode_spec::<T::Visitor>(pending).0->Ok_0,
        ),
        Children::<L, T>::child_spec(m, L::text(), pending).0.0.len() == m.len() + 1,
        Children::<L, T>::child_spec(m, L::text(), pending).1 == decode_spec::<T::Visitor>(
            pending,
        ).1,
{
}

/// A child that may occur once is an error the second time: the value of
/// the first stays, and the reader is left as it is.
pub proof fn second_child_is_an_error<L: Label, T: FromXml>(
    m: Option<ValueOf<T>>,
    pending: Seq<Token>,
)
    requires
        m is Some,
    ensures
        Child::<L, T>::child_spec(m, L::text(), pending) == (
            (m, Err::<(), ErrorView>(ErrorView::DoubleChild(L::text()))),
            pending,
        ),
{
}

/// A field visitor rejects what is not its field: an attribute or a child
/// of another name is unexpected, and the reader is left as it is.
pub proof fn other_names_are_rejected<L: Label, T: FromXml>(
    m: Option<ValueOf<T>>,
    name: Seq<char>,
    value: Seq<char>,
    pending: Seq<Token>,
)
    requires
        name != L::text(),
    ensures
        Attr::<L, T>::attribute_spec(m, name, value) == (
            m,
            Err::<(), ErrorView>(ErrorView::UnexpectedAttribute(name)),
        ),
        Child::<L, T>::child_spec(m, name, pending) == (
            (m, Err::<(), ErrorView>(ErrorView::UnexpectedChild(name))),
            pending,
        ),
{
}

} // verus!
