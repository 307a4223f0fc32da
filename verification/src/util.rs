//! Miscellaneous helper types

use crate::error::{Error, ErrorView};
use crate::event::Token;
use crate::impls::{FromDecoded, FromStringVisitor, XmlFromStr};
use crate::reader::PeekingReader;
use crate::visitor::{Step, Visitor};
use vstd::prelude::*;
use vstd::std_specs::convert::FromSpecImpl;
use vstd::string::StrSliceExecFns;

pub use crate::node::{XmlAttribute, XmlNode};

verus! {

/// The index of the first space of a text, or its length where it has none.
pub open spec fn first_space(text: Seq<char>) -> int
    decreases text.len(),
{
    if text.len() == 0 || text[0] == ' ' {
        0
    } else {
        1 + first_space(text.skip(1))
    }
}

/// The first space is where a space stands with none before it.
pub proof fn first_space_found(text: Seq<char>, k: int)
    requires
        0 <= k <= text.len(),
        forall|j: int| 0 <= j < k ==> text[j] != ' ',
        k < text.len() ==> text[k] == ' ',
    ensures
        first_space(text) == k,
    decreases text.len(),
{
    if text.len() != 0 && text[0] != ' ' {
        assert forall|j: int| 0 <= j < k - 1 implies text.skip(1)[j] != ' ' by {
            assert(text.skip(1)[j] == text[j + 1]);
        }
        first_space_found(text.skip(1), k - 1);
    }
}

/// What the parse of a space-separated list returns: the text is cut at
/// each space, each piece is parsed as a `T`, and the first failure is the
/// failure of the whole. `done` holds the items before `text`. A text
/// without a space is one piece, the empty text too.
pub open spec fn list_spec<T: XmlFromStr>(done: Seq<T::Value>, text: Seq<char>) -> std::result::Result<
    Seq<T::Value>,
    Seq<char>,
>
    decreases text.len(),
{
    let k = first_space(text);
    match T::parse_spec(text.take(k)) {
        Err(message) => Err(message),
        Ok(item) => if 0 <= k < text.len() {
            list_spec::<T>(done.push(item), text.skip(k + 1))
        } else {
            Ok(done.push(item))
        },
    }
}

/// The contents of parsed values, in order.
pub open spec fn item_values<T: XmlFromStr>(items: Seq<T>) -> Seq<T::Value> {
    Seq::new(items.len(), |i: int| items[i].value())
}

/// A vector expecting space-separated items.
#[derive(Debug, Clone, PartialEq)]
pub struct XmlVec<T> {
    pub items: Vec<T>,
}

impl<T> XmlVec<T> {
    /// The items.
    pub open spec fn view(&self) -> Seq<T> {
        self.items@
    }

    /// A list of the given items.
    pub fn new(items: Vec<T>) -> (list: XmlVec<T>)
        ensures
            list.view() == items@,
    {
        XmlVec { items }
    }

    /// The items.
    pub fn as_vec(&self) -> (items: &Vec<T>)
        ensures
            items@ == self.view(),
    {
        &self.items
    }

    /// The items.
    pub fn into_vec(self) -> (items: Vec<T>)
        ensures
            items@ == self.view(),
    {
        self.items
    }
}

impl<T> std::ops::Deref for XmlVec<T> {
    type Target = Vec<T>;

    fn deref(&self) -> (items: &Vec<T>)
        ensures
            items@ == self.view(),
    {
        &self.items
    }
}

impl<T> From<Vec<T>> for XmlVec<T> {
    fn from(items: Vec<T>) -> (list: XmlVec<T>) {
        XmlVec { items }
    }
}

impl<T> FromSpecImpl<Vec<T>> for XmlVec<T> {
    open spec fn obeys_from_spec() -> bool {
        true
    }

    open spec fn from_spec(items: Vec<T>) -> XmlVec<T> {
        XmlVec { items }
    }
}

impl<T> From<XmlVec<T>> for Vec<T> {
    fn from(list: XmlVec<T>) -> (items: Vec<T>) {
        list.items
    }
}

impl<T> FromSpecImpl<XmlVec<T>> for Vec<T> {
    open spec fn obeys_from_spec() -> bool {
        true
    }

    open spec fn from_spec(list: XmlVec<T>) -> Vec<T> {
        list.items
    }
}

impl<T: XmlFromStr> XmlFromStr for XmlVec<T> {
    type Value = Seq<T::Value>;

    open spec fn value(&self) -> Seq<T::Value> {
        item_values::<T>(self.view())
    }

    open spec fn parse_spec(text: Seq<char>) -> std::result::Result<Seq<T::Value>, Seq<char>> {
        list_spec::<T>(Seq::empty(), text)
    }

    fn from_xml_str(text: &str) -> std::result::Result<XmlVec<T>, String> {
        let len: usize = text.unicode_len();
        let mut items: Vec<T> = Vec::new();
        let mut start: usize = 0;
        let mut i: usize = 0;
        assert(item_values::<T>(items@) =~= Seq::<T::Value>::empty());
        assert(text@.skip(0) =~= text@);
        while i < len
            invariant
                start <= i <= len,
                len == text@.len(),
                forall|j: int| start <= j < i ==> text@[j] != ' ',
                list_spec::<T>(Seq::empty(), text@) == list_spec::<T>(
                    item_values::<T>(items@),
                    text@.skip(start as int),
                ),
            decreases len - i,
        {
            if text.get_char(i) == ' ' {
                let piece = text.substring_char(start, i);
                proof {
                    let rest = text@.skip(start as int);
                    assert forall|j: int| 0 <= j < i - start implies rest[j] != ' ' by {
                        assert(rest[j] == text@[start + j]);
                    }
                    first_space_found(rest, i - start);
                    assert(rest.take(i - start) =~= piece@);
                    assert(rest.skip(i - start + 1) =~= text@.skip(i + 1));
                }
                match T::from_xml_str(piece) {
                    Err(message) => {
                        return Err(message);
                    },
                    Ok(item) => {
                        let ghost before = item_values::<T>(items@);
                        items.push(item);
                        assert(item_values::<T>(items@) =~= before.push(item.value()));
                        start = i + 1;
                    },
                }
            }
            i = i + 1;
        }
        let piece = text.substring_char(start, len);
        proof {
            let rest = text@.skip(start as int);
            assert forall|j: int| 0 <= j < len - start implies rest[j] != ' ' by {
                assert(rest[j] == text@[start + j]);
            }
            first_space_found(rest, len - start);
            assert(rest.take(len - start) =~= piece@);
        }
        match T::from_xml_str(piece) {
            Err(message) => Err(message),
            Ok(item) => {
                let ghost before = item_values::<T>(items@);
                items.push(item);
                assert(item_values::<T>(items@) =~= before.push(item.value()));
                Ok(XmlVec { items })
            },
        }
    }
}

impl<T: XmlFromStr> FromDecoded<FromStringVisitor<XmlVec<T>>> for Vec<T> {
    type Value = Seq<T::Value>;

    open spec fn value(&self) -> Seq<T::Value> {
        item_values::<T>(self@)
    }

    open spec fn convert_spec(source: Seq<T::Value>) -> Seq<T::Value> {
        source
    }

    fn convert(source: XmlVec<T>) -> Vec<T> {
        source.into_vec()
    }
}

/// A generic visitor that will discard all errors thrown during build
///
/// This visitor can be wrapped around any existing visitor and its output type will be the wrapped visitor's output
/// type wrapped in an [`Option`]. Errors thrown during build will be discarded and a [`None`]-value will be returned.
pub struct DiscardErrorVisitor<V: Visitor> {
    inner_visitor: V,
}

impl<V: Visitor> Visitor for DiscardErrorVisitor<V> {
    type Output = Option<V::Output>;

    type Model = V::Model;

    type Value = Option<V::Value>;

    closed spec fn model(&self) -> Self::Model {
        self.inner_visitor.model()
    }

    open spec fn value(output: &Option<V::Output>) -> Self::Value {
        match output {
            Some(inner) => Some(V::value(inner)),
            None => None,
        }
    }

    open spec fn initial() -> Self::Model {
        V::initial()
    }

    open spec fn expected_name() -> Option<Seq<char>> {
        V::expected_name()
    }

    open spec fn tag_spec(m: Self::Model, name: Seq<char>) -> Step<Self::Model> {
        (m, Ok(()))
    }

    open spec fn attribute_spec(m: Self::Model, name: Seq<char>, value: Seq<char>) -> Step<
        Self::Model,
    > {
        V::attribute_spec(m, name, value)
    }

    open spec fn text_spec(m: Self::Model, text: Seq<char>) -> Step<Self::Model> {
        V::text_spec(m, text)
    }

    open spec fn child_spec(m: Self::Model, name: Seq<char>, pending: Seq<Token>) -> (
        Step<Self::Model>,
        Seq<Token>,
    ) {
        V::child_spec(m, name, pending)
    }

    open spec fn build_spec(m: Self::Model) -> std::result::Result<Self::Value, ErrorView> {
        match V::build_spec(m) {
            Ok(inner) => Ok(Some(inner)),
            Err(_) => Ok(None),
        }
    }

    proof fn child_is_consumed(m: Self::Model, name: Seq<char>, pending: Seq<Token>) {
        V::child_is_consumed(m, name, pending);
    }

    fn fresh() -> Self {
        DiscardErrorVisitor { inner_visitor: V::fresh() }
    }

    fn start_name() -> Option<&'static str> {
        V::start_name()
    }

    fn visit_tag(&mut self, name: &str) -> std::result::Result<(), Error> {
        Ok(())
    }

    fn visit_attribute(&mut self, name: &str, value: &str) -> std::result::Result<(), Error> {
        self.inner_visitor.visit_attribute(name, value)
    }

    fn visit_child(&mut self, name: &str, reader: &mut PeekingReader) -> std::result::Result<
        (),
        Error,
    > {
        self.inner_visitor.visit_child(name, reader)
    }

    fn visit_text(&mut self, text: &str) -> std::result::Result<(), Error> {
        self.inner_visitor.visit_text(text)
    }

    fn build(self) -> std::result::Result<Option<V::Output>, Error> {
        match self.inner_visitor.build() {
            Ok(inner) => Ok(Some(inner)),
            Err(_) => Ok(None),
        }
    }
}

} // verus!
