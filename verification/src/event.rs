//! Lexical events of an XML document, as the reader hands them to the decode
//! engine.

use crate::error::{Error, ErrorView};
use quick_xml::Error as XmlError;
use vstd::prelude::*;

verus! {

/// An attribute of a start tag. The value is kept as written in the
/// document: entity references are resolved when the attribute is visited.
#[derive(Debug)]
pub struct RawAttribute {
    /// Attribute name.
    pub name: String,
    /// Attribute value, entity references unresolved.
    pub value: String,
}

/// Mathematical content of a [`RawAttribute`].
pub struct AttributeView {
    pub name: Seq<char>,
    pub value: Seq<char>,
}

impl View for RawAttribute {
    type V = AttributeView;

    open spec fn view(&self) -> AttributeView {
        AttributeView { name: self.name@, value: self.value@ }
    }
}

/// The contents of the attributes of a start tag.
pub open spec fn attribute_views(attributes: Seq<RawAttribute>) -> Seq<AttributeView> {
    Seq::new(attributes.len(), |i: int| attributes[i]@)
}

/// A lexical event with owned, decoded strings.
#[derive(Debug)]
pub enum Event {
    /// Start tag. `attributes` holds the attributes in document order up to
    /// the first one that is not well-formed; `malformed` holds the
    /// tokenizer's error for that one, if there is one.
    Start { name: String, attributes: Vec<RawAttribute>, malformed: Option<XmlError> },
    /// End tag.
    End { name: String },
    /// Character data between tags, entity references unresolved.
    Text { content: String },
    /// Anything else (comment, processing instruction, declaration, ...).
    Other,
}

/// Mathematical content of an [`Event`].
pub enum EventView {
    Start { name: Seq<char>, attributes: Seq<AttributeView>, malformed: bool },
    End { name: Seq<char> },
    Text { content: Seq<char> },
    Other,
}

impl View for Event {
    type V = EventView;

    open spec fn view(&self) -> EventView {
        match self {
            Event::Start { name, attributes, malformed } => EventView::Start {
                name: name@,
                attributes: attribute_views(attributes@),
                malformed: malformed is Some,
            },
            Event::End { name } => EventView::End { name: name@ },
            Event::Text { content } => EventView::Text { content: content@ },
            Event::Other => EventView::Other,
        }
    }
}

/// One item of an event stream: an event, or a place where the tokenizer
/// reported an error.
pub enum Token {
    Event(EventView),
    Failure,
}

/// The stream item that a read result stands for.
pub open spec fn token_of(item: std::result::Result<Event, XmlError>) -> Token {
    match item {
        Ok(event) => Token::Event(event@),
        Err(_) => Token::Failure,
    }
}

/// The stream that a sequence of read results stands for.
pub open spec fn tokens_of(items: Seq<std::result::Result<Event, XmlError>>) -> Seq<Token> {
    Seq::new(items.len(), |i: int| token_of(items[i]))
}

/// The stream that holds the given events and no failure.
pub open spec fn event_tokens(events: Seq<Event>) -> Seq<Token> {
    Seq::new(events.len(), |i: int| Token::Event(events[i]@))
}

/// What reading from a stream gives: nothing at its end, the first event,
/// or a tokenizer error where the first item is a failure.
pub open spec fn head(stream: Seq<Token>) -> std::result::Result<Option<EventView>, ErrorView> {
    if stream.len() == 0 {
        Ok(None)
    } else {
        match stream[0] {
            Token::Event(event) => Ok(Some(event)),
            Token::Failure => Err(ErrorView::Xml),
        }
    }
}

/// The stream after its first item was taken; the empty stream stays empty.
pub open spec fn tail(stream: Seq<Token>) -> Seq<Token> {
    if stream.len() == 0 {
        stream
    } else {
        stream.skip(1)
    }
}

/// Mathematical content of the result of reading an event.
pub open spec fn read_view(r: std::result::Result<Option<Event>, Error>) -> std::result::Result<
    Option<EventView>,
    ErrorView,
> {
    match r {
        Ok(Some(event)) => Ok(Some(event@)),
        Ok(None) => Ok(None),
        Err(error) => Err(error@),
    }
}

} // verus!
