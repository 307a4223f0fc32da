//! The event source: the lexical events of one document, in document order.

use crate::error::Error;
use crate::event::{
    attribute_views, event_tokens, head, read_view, tail, token_of, tokens_of, AttributeView, Event,
    EventView, RawAttribute, Token,
};
use crate::tokenizer::{
    attributes_of, attributes_pending, decode, decoded, decoder, end_local_name,
    expand_empty_elements, expanded, lexeme_item, lexemes, next_attribute, open, read,
    start_attributes, start_local, start_local_name, text_bytes, trim_text, trimmed, upcoming,
    Lexeme, RawItem, RawPair,
};
use quick_xml::Error as XmlError;
use std::collections::VecDeque;
use vstd::prelude::*;
use vstd::string::StringSliceAdditionalSpecFns;

verus! {

/// The events of a document that have not been handed out yet, each either
/// an event or the tokenizer's error at that place.
pub struct EventSource {
    items: VecDeque<std::result::Result<Event, XmlError>>,
}

impl View for EventSource {
    type V = Seq<Token>;

    closed spec fn view(&self) -> Seq<Token> {
        tokens_of(self.items@)
    }
}

/// The attributes that are kept of those that the tokenizer's iterator
/// yields, after the attributes `done`: each is decoded, key and value, up
/// to the first that the tokenizer rejects or that cannot be decoded.
/// Whether there was such a one is the second part.
pub open spec fn kept_attributes(done: Seq<AttributeView>, pending: Seq<RawPair>) -> (
    Seq<AttributeView>,
    bool,
)
    decreases pending.len(),
{
    if pending.len() == 0 {
        (done, false)
    } else {
        match pending[0] {
            None => (done, true),
            Some((key, value)) => match (decoded(key), decoded(value)) {
                (Some(name), Some(value)) => kept_attributes(
                    done.push(AttributeView { name, value }),
                    pending.skip(1),
                ),
                _ => (done, true),
            },
        }
    }
}

/// The stream item for a start tag with the given bytes of its local name
/// and the given attributes: a failure where the name cannot be decoded,
/// else the start event with the attributes that are kept.
pub open spec fn start_token(name: Seq<u8>, attributes: Seq<RawPair>) -> Token {
    match decoded(name) {
        None => Token::Failure,
        Some(name) => {
            let kept = kept_attributes(Seq::empty(), attributes);
            Token::Event(EventView::Start { name, attributes: kept.0, malformed: kept.1 })
        },
    }
}

/// The stream item for a result of the tokenizer: the event with its
/// strings decoded, or a failure where the tokenizer failed or a string
/// cannot be decoded. An empty-element tag that was not expanded counts
/// among the other events.
pub open spec fn item_token(item: RawItem) -> Token {
    match item {
        RawItem::Start { name, attributes } => start_token(name, attributes),
        RawItem::Empty { .. } => Token::Event(EventView::Other),
        RawItem::End { name } => match decoded(name) {
            Some(name) => Token::Event(EventView::End { name }),
            None => Token::Failure,
        },
        RawItem::Text { content } => match decoded(content) {
            Some(content) => Token::Event(EventView::Text { content }),
            None => Token::Failure,
        },
        RawItem::Other => Token::Event(EventView::Other),
        RawItem::Failure => Token::Failure,
    }
}

/// The stream items for the results of the tokenizer, in order.
pub open spec fn items_tokens(items: Seq<RawItem>) -> Seq<Token> {
    Seq::new(items.len(), |i: int| item_token(items[i]))
}

/// The event stream of a document: what the tokenizer gives for its bytes
/// with empty-element tags expanded and character data trimmed, each
/// result as [`item_token`] says.
pub open spec fn document_tokens(input: Seq<u8>) -> Seq<Token> {
    items_tokens(trimmed(expanded(lexemes(input))))
}

/// What the conversion of a result of the tokenizer gave: nothing at the
/// end of the input, else the stream item.
pub open spec fn event_outcome(r: std::result::Result<Option<Event>, XmlError>) -> Option<Token> {
    match r {
        Ok(None) => None,
        Ok(Some(event)) => Some(Token::Event(event@)),
        Err(_) => Some(Token::Failure),
    }
}

/// Decodes the attributes that the tokenizer's iterator yields, in order,
/// up to the first that the tokenizer rejects or that cannot be decoded,
/// and gives the error for that one beside them.
fn decode_attributes(
    rest: quick_xml::events::attributes::Attributes,
    decoder: &quick_xml::Decoder,
) -> (r: (Vec<RawAttribute>, Option<XmlError>))
    ensures
        (attribute_views(r.0@), r.1 is Some) == kept_attributes(
            Seq::empty(),
            attributes_pending(rest),
        ),
{
    let mut pending = rest;
    let mut attributes: Vec<RawAttribute> = Vec::new();
    assert(attribute_views(attributes@) =~= Seq::empty());
    loop
        invariant
            kept_attributes(Seq::empty(), attributes_pending(rest)) == kept_attributes(
                attribute_views(attributes@),
                attributes_pending(pending),
            ),
        decreases attributes_pending(pending).len(),
    {
        match next_attribute(&mut pending) {
            None => {
                return (attributes, None);
            },
            Some(Err(error)) => {
                return (attributes, Some(error));
            },
            Some(Ok(raw)) => {
                match decode(decoder, raw.key.as_slice()) {
                    Err(error) => {
                        return (attributes, Some(error));
                    },
                    Ok(name) => {
                        match decode(decoder, raw.value.as_slice()) {
                            Err(error) => {
                                return (attributes, Some(error));
                            },
                            Ok(value) => {
                                let ghost before = attribute_views(attributes@);
                                let ghost added = AttributeView { name: name@, value: value@ };
                                attributes.push(RawAttribute { name, value });
                                assert(attribute_views(attributes@) =~= before.push(added));
                            },
                        }
                    },
                }
            },
        }
    }
}

/// The event of a start tag: its local name and its attributes, decoded.
/// The attributes stop at the first one that the tokenizer rejects or that
/// cannot be decoded, with the error kept beside them.
fn start_event(start: &quick_xml::events::BytesStart, decoder: &quick_xml::Decoder) -> (r:
    std::result::Result<Event, XmlError>)
    ensures
        token_of(r) == start_token(start_local(*start), start_attributes(*start)),
{
    let name = match decode(decoder, start_local_name(start)) {
        Ok(name) => name,
        Err(error) => {
            return Err(error);
        },
    };
    let (attributes, malformed) = decode_attributes(attributes_of(start), decoder);
    Ok(Event::Start { name, attributes, malformed })
}

/// The event that stands for what the tokenizer read, with its strings
/// decoded; `None` at the end of the input.
fn event_of(lexeme: Lexeme, decoder: &quick_xml::Decoder) -> (r: std::result::Result<
    Option<Event>,
    XmlError,
>)
    ensures
        event_outcome(r) == if lexeme is Eof {
            None
        } else {
            Some(item_token(lexeme_item(lexeme)))
        },
{
    match lexeme {
        Lexeme::Start(start) => match start_event(&start, decoder) {
            Ok(event) => Ok(Some(event)),
            Err(error) => Err(error),
        },
        Lexeme::End(end) => match decode(decoder, end_local_name(&end)) {
            Ok(name) => Ok(Some(Event::End { name })),
            Err(error) => Err(error),
        },
        Lexeme::Text(text) => match decode(decoder, text_bytes(&text)) {
            Ok(content) => Ok(Some(Event::Text { content })),
            Err(error) => Err(error),
        },
        Lexeme::Empty(_) => Ok(Some(Event::Other)),
        Lexeme::Other => Ok(Some(Event::Other)),
        Lexeme::Eof => Ok(None),
    }
}

impl EventSource {
    /// The events of the document in `input`, as the tokenizer reads them:
    /// empty-element tags as a start and an end tag, character data without
    /// the white space around it.
    pub fn from_buf(input: &[u8]) -> (source: EventSource)
        ensures
            source@ == document_tokens(input@),
    {
        let mut reader = open(input);
        expand_empty_elements(&mut reader);
        trim_text(&mut reader);
        let decoder = decoder(&reader);
        let mut items: VecDeque<std::result::Result<Event, XmlError>> = VecDeque::new();
        let ghost all = upcoming(reader);
        assert(tokens_of(items@) + items_tokens(upcoming(reader)) =~= items_tokens(all));
        loop
            invariant
                tokens_of(items@) + items_tokens(upcoming(reader)) == items_tokens(all),
            ensures
                upcoming(reader).len() == 0,
            decreases upcoming(reader).len(),
        {
            let ghost before = upcoming(reader);
            let ghost done = items@;
            match read(&mut reader) {
                Err(error) => {
                    items.push_back(Err(error));
                },
                Ok(Lexeme::Eof) => {
                    break ;
                },
                Ok(lexeme) => {
                    match event_of(lexeme, &decoder) {
                        Ok(Some(event)) => {
                            items.push_back(Ok(event));
                        },
                        Ok(None) => {},
                        Err(error) => {
                            items.push_back(Err(error));
                        },
                    }
                },
            }
            assert(tokens_of(items@) =~= tokens_of(done).push(item_token(before[0])));
            assert(tokens_of(items@) + items_tokens(before.skip(1)) =~= tokens_of(done)
                + items_tokens(before));
        }
        let source = EventSource { items };
        assert(source@ =~= items_tokens(all));
        source
    }

    /// The events of the document in `input`.
    pub fn from_str(input: &str) -> (source: EventSource)
        ensures
            source@ == document_tokens(input.spec_bytes()),
    {
        EventSource::from_buf(input.as_bytes())
    }

    /// A source that hands out the given events, in order.
    pub fn from_events(events: Vec<Event>) -> (source: EventSource)
        ensures
            source@ == event_tokens(events@),
    {
        let mut items: VecDeque<std::result::Result<Event, XmlError>> = VecDeque::new();
        let mut events = events;
        let ghost all = events@;
        // Events are taken from the back, so each goes to the front.
        while events.len() > 0
            invariant
                events@.len() + items@.len() == all.len(),
                forall|i: int| 0 <= i < events@.len() ==> events@[i] == all[i],
                forall|i: int|
                    0 <= i < items@.len() ==> #[trigger] items@[i] == Ok::<Event, XmlError>(
                        all[events@.len() + i],
                    ),
            decreases events.len(),
        {
            let event = events.pop().unwrap();
            items.push_front(Ok(event));
        }
        let source = EventSource { items };
        assert(source@ =~= event_tokens(all));
        source
    }

    /// The number of items that have not been handed out yet.
    pub fn len(&self) -> (n: usize)
        ensures
            n == self@.len(),
    {
        self.items.len()
    }

    /// Hands out the next item: `Ok(None)` when the source is exhausted, the
    /// event, or the tokenizer's error as [`Error::Xml`].
    pub fn next(&mut self) -> (r: std::result::Result<Option<Event>, Error>)
        ensures
            read_view(r) == head(old(self)@),
            final(self)@ == tail(old(self)@),
    {
        match self.items.pop_front() {
            None => Ok(None),
            Some(item) => {
                assert(self@ =~= old(self)@.skip(1));
                match item {
                    Ok(event) => Ok(Some(event)),
                    Err(error) => Err(Error::Xml(error)),
                }
            },
        }
    }
}

} // verus!
