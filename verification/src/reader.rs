//! The lookahead reader and the decode engine.

use crate::error::{outcome, Error, ErrorView};
use crate::escape::{same_text, unescape, unescaped};
use crate::event::{
    attribute_views, head, read_view, tail, AttributeView, Event, EventView, RawAttribute, Token,
};
use crate::nesting::{
    consumed_is_shorter, consumes_element, element_len, is_rest_of, rest_of_rest, scan_end,
    scan_end_past_child, skip_is_rest,
};
use crate::source::{document_tokens, EventSource};
use crate::visitor::{built, FromXml, Visitor};
use quick_xml::Error as XmlError;
use vstd::prelude::*;
use vstd::string::StringSliceAdditionalSpecFns;

verus! {

/// What visiting the attributes from index `i` on does: each value has its
/// entity references resolved and is handed to the visitor, in order, until
/// one fails.
pub open spec fn attributes_spec<V: Visitor>(
    m: V::Model,
    attributes: Seq<AttributeView>,
    i: int,
) -> (V::Model, std::result::Result<(), ErrorView>)
    decreases attributes.len() - i,
{
    if i < 0 || i >= attributes.len() {
        (m, Ok(()))
    } else {
        match unescaped(attributes[i].value) {
            None => (m, Err(ErrorView::Xml)),
            Some(value) => {
                let step = V::attribute_spec(m, attributes[i].name, value);
                if step.1 is Err {
                    step
                } else {
                    attributes_spec::<V>(step.0, attributes, i + 1)
                }
            },
        }
    }
}

/// What the decode of an element's content returns, and the events left
/// after it, for a visitor in state `m` inside the element named `open`.
pub open spec fn content_spec<V: Visitor>(m: V::Model, open: Seq<char>, pending: Seq<Token>) -> (
    std::result::Result<V::Value, ErrorView>,
    Seq<Token>,
)
    decreases pending.len(),
{
    if pending.len() == 0 {
        (Err(ErrorView::MissingEnd(open)), pending)
    } else {
        match pending[0] {
            Token::Failure => (Err(ErrorView::Xml), pending.skip(1)),
            Token::Event(EventView::End { name }) => if name == open {
                (V::build_spec(m), pending.skip(1))
            } else {
                (Err(ErrorView::WrongEnd(open, name)), pending.skip(1))
            },
            Token::Event(EventView::Text { content }) => match unescaped(content) {
                None => (Err(ErrorView::Xml), pending),
                Some(text) => {
                    let step = V::text_spec(m, text);
                    match step.1 {
                        Err(error) => (Err(error), pending),
                        Ok(()) => content_spec::<V>(step.0, open, pending.skip(1)),
                    }
                },
            },
            Token::Event(EventView::Start { name, .. }) => {
                let (step, rest) = V::child_spec(m, name, pending);
                match step.1 {
                    Err(error) => (Err(error), rest),
                    Ok(()) => {
                        proof {
                            V::child_is_consumed(m, name, pending);
                            consumed_is_shorter(pending, rest);
                        }
                        content_spec::<V>(step.0, open, rest)
                    },
                }
            },
            Token::Event(EventView::Other) => content_spec::<V>(m, open, pending.skip(1)),
        }
    }
}

/// What the decode of one element with visitor `V` returns, and the events
/// left after it.
pub open spec fn decode_spec<V: Visitor>(pending: Seq<Token>) -> (
    std::result::Result<V::Value, ErrorView>,
    Seq<Token>,
) {
    match head(pending) {
        Err(error) => (Err(error), tail(pending)),
        Ok(Some(EventView::Start { name, attributes, malformed })) => {
            if V::expected_name() is Some && V::expected_name()->Some_0 != name {
                (Err(ErrorView::WrongStart(V::expected_name()->Some_0, name)), pending)
            } else {
                let tagged = V::tag_spec(V::initial(), name);
                match tagged.1 {
                    Err(error) => (Err(error), pending),
                    Ok(()) => {
                        let visited = attributes_spec::<V>(tagged.0, attributes, 0);
                        match visited.1 {
                            Err(error) => (Err(error), pending),
                            Ok(()) => if malformed {
                                (Err(ErrorView::Xml), pending)
                            } else {
                                content_spec::<V>(visited.0, name, pending.skip(1))
                            },
                        }
                    },
                }
            }
        },
        _ => (Err(ErrorView::MissingStart), pending),
    }
}

/// What skipping an element's content returns, and the events left after
/// it, `depth` start tags below the element named `open`.
pub open spec fn skip_content_spec(open: Seq<char>, pending: Seq<Token>, depth: nat) -> (
    std::result::Result<(), ErrorView>,
    Seq<Token>,
)
    decreases pending.len(),
{
    if pending.len() == 0 {
        (Err(ErrorView::MissingEnd(open)), pending)
    } else {
        match pending[0] {
            Token::Failure => (Err(ErrorView::Xml), pending.skip(1)),
            Token::Event(EventView::End { name }) => if depth == 0 {
                if name == open {
                    (Ok(()), pending.skip(1))
                } else {
                    (Err(ErrorView::WrongEnd(open, name)), pending.skip(1))
                }
            } else {
                skip_content_spec(open, pending.skip(1), (depth - 1) as nat)
            },
            Token::Event(EventView::Start { .. }) => skip_content_spec(
                open,
                pending.skip(1),
                depth + 1,
            ),
            _ => skip_content_spec(open, pending.skip(1), depth),
        }
    }
}

/// What skipping one element returns, and the events left after it.
pub open spec fn skip_spec(pending: Seq<Token>) -> (std::result::Result<(), ErrorView>, Seq<Token>) {
    match head(pending) {
        Err(error) => (Err(error), tail(pending)),
        Ok(Some(EventView::Start { name, .. })) => skip_content_spec(name, pending.skip(1), 0),
        _ => (Err(ErrorView::MissingStart), pending),
    }
}

/// A skip only takes events from the front of the stream.
proof fn skip_content_leaves_rest(open: Seq<char>, pending: Seq<Token>, depth: nat)
    ensures
        is_rest_of(skip_content_spec(open, pending, depth).1, pending),
    decreases pending.len(),
{
    if pending.len() > 0 {
        skip_is_rest(pending, 1);
        let rest = pending.skip(1);
        match pending[0] {
            Token::Failure => {},
            Token::Event(EventView::End { name }) => if depth != 0 {
                skip_content_leaves_rest(open, rest, (depth - 1) as nat);
                rest_of_rest(skip_content_spec(open, rest, (depth - 1) as nat).1, rest, pending);
            },
            Token::Event(EventView::Start { .. }) => {
                skip_content_leaves_rest(open, rest, depth + 1);
                rest_of_rest(skip_content_spec(open, rest, depth + 1).1, rest, pending);
            },
            _ => {
                skip_content_leaves_rest(open, rest, depth);
                rest_of_rest(skip_content_spec(open, rest, depth).1, rest, pending);
            },
        }
    } else {
        skip_is_rest(pending, 0);
    }
}

/// A skip only takes events from the front of the stream.
pub proof fn skip_leaves_rest(pending: Seq<Token>)
    ensures
        is_rest_of(skip_spec(pending).1, pending),
{
    if pending.len() > 0 {
        skip_is_rest(pending, 1);
        skip_is_rest(pending, 0);
        match pending[0] {
            Token::Event(EventView::Start { name, .. }) => {
                skip_content_leaves_rest(name, pending.skip(1), 0);
                rest_of_rest(skip_spec(pending).1, pending.skip(1), pending);
            },
            _ => {},
        }
    } else {
        skip_is_rest(pending, 0);
    }
}

/// A decode of content only takes events from the front of the stream.
proof fn content_leaves_rest<V: Visitor>(m: V::Model, open: Seq<char>, pending: Seq<Token>)
    ensures
        is_rest_of(content_spec::<V>(m, open, pending).1, pending),
    decreases pending.len(),
{
    skip_is_rest(pending, 0);
    if pending.len() > 0 {
        skip_is_rest(pending, 1);
        let rest = pending.skip(1);
        match pending[0] {
            Token::Failure => {},
            Token::Event(EventView::End { name }) => {},
            Token::Event(EventView::Text { content }) => match unescaped(content) {
                None => {},
                Some(text) => {
                    let step = V::text_spec(m, text);
                    if step.1 is Ok {
                        content_leaves_rest::<V>(step.0, open, rest);
                        rest_of_rest(content_spec::<V>(step.0, open, rest).1, rest, pending);
                    }
                },
            },
            Token::Event(EventView::Start { name, .. }) => {
                let (step, after) = V::child_spec(m, name, pending);
                V::child_is_consumed(m, name, pending);
                if step.1 is Ok {
                    consumed_is_shorter(pending, after);
                    content_leaves_rest::<V>(step.0, open, after);
                    rest_of_rest(content_spec::<V>(step.0, open, after).1, after, pending);
                }
            },
            Token::Event(EventView::Other) => {
                content_leaves_rest::<V>(m, open, rest);
                rest_of_rest(content_spec::<V>(m, open, rest).1, rest, pending);
            },
        }
    }
}

/// A decode only takes events from the front of the stream, whatever the
/// visitor and whatever the outcome.
pub proof fn decode_leaves_rest<V: Visitor>(pending: Seq<Token>)
    ensures
        is_rest_of(decode_spec::<V>(pending).1, pending),
{
    skip_is_rest(pending, 0);
    if pending.len() > 0 {
        skip_is_rest(pending, 1);
        match pending[0] {
            Token::Event(EventView::Start { name, attributes, malformed }) => {
                let tagged = V::tag_spec(V::initial(), name);
                let visited = attributes_spec::<V>(tagged.0, attributes, 0);
                content_leaves_rest::<V>(visited.0, name, pending.skip(1));
                rest_of_rest(
                    content_spec::<V>(visited.0, name, pending.skip(1)).1,
                    pending.skip(1),
                    pending,
                );
            },
            _ => {},
        }
    }
}

/// A skip that succeeds from index `i` of a stream, `depth` levels down,
/// ends where the element ends that is looked for from there.
proof fn skip_content_ends_element(open: Seq<char>, stream: Seq<Token>, i: int, depth: nat)
    requires
        0 <= i <= stream.len(),
        skip_content_spec(open, stream.skip(i), depth).0 is Ok,
    ensures
        scan_end(stream, i, depth) matches Some(k) && skip_content_spec(
            open,
            stream.skip(i),
            depth,
        ).1 == stream.skip(k),
    decreases stream.len() - i,
{
    let pending = stream.skip(i);
    if i < stream.len() {
        assert(pending[0] == stream[i]);
        assert(pending.skip(1) =~= stream.skip(i + 1));
        match stream[i] {
            Token::Failure => {},
            Token::Event(EventView::End { name }) => if depth != 0 {
                skip_content_ends_element(open, stream, i + 1, (depth - 1) as nat);
            },
            Token::Event(EventView::Start { .. }) => {
                skip_content_ends_element(open, stream, i + 1, depth + 1);
            },
            _ => {
                skip_content_ends_element(open, stream, i + 1, depth);
            },
        }
    }
}

/// A skip that succeeds has consumed exactly the element at the head of the
/// stream.
pub proof fn skip_consumes_element(pending: Seq<Token>)
    requires
        skip_spec(pending).0 is Ok,
    ensures
        consumes_element(pending, skip_spec(pending).1),
{
    let name = head(pending)->Ok_0->Some_0->Start_name;
    skip_content_ends_element(name, pending, 1, 0);
}

/// A decode of content that succeeds from index `i` of a stream ends where
/// the element ends that is looked for from there.
proof fn content_ends_element<V: Visitor>(m: V::Model, open: Seq<char>, stream: Seq<Token>, i: int)
    requires
        0 <= i <= stream.len(),
        content_spec::<V>(m, open, stream.skip(i)).0 is Ok,
    ensures
        scan_end(stream, i, 0) matches Some(k) && content_spec::<V>(m, open, stream.skip(i)).1
            == stream.skip(k),
    decreases stream.len() - i,
{
    let pending = stream.skip(i);
    if i < stream.len() {
        assert(pending[0] == stream[i]);
        assert(pending.skip(1) =~= stream.skip(i + 1));
        match stream[i] {
            Token::Failure => {},
            Token::Event(EventView::End { name }) => {},
            Token::Event(EventView::Text { content }) => {
                let text = unescaped(content)->Some_0;
                content_ends_element::<V>(V::text_spec(m, text).0, open, stream, i + 1);
            },
            Token::Event(EventView::Start { name, .. }) => {
                let (step, rest) = V::child_spec(m, name, pending);
                V::child_is_consumed(m, name, pending);
                scan_end_past_child(stream, i, rest);
                let k = element_len(pending)->Some_0;
                content_ends_element::<V>(step.0, open, stream, i + k);
            },
            Token::Event(EventView::Other) => {
                content_ends_element::<V>(m, open, stream, i + 1);
            },
        }
    }
}

/// A decode that succeeds has consumed exactly the element at the head of
/// the stream, whatever the visitor.
pub proof fn decode_consumes_element<V: Visitor>(pending: Seq<Token>)
    requires
        decode_spec::<V>(pending).0 is Ok,
    ensures
        consumes_element(pending, decode_spec::<V>(pending).1),
{
    let name = head(pending)->Ok_0->Some_0->Start_name;
    let attributes = head(pending)->Ok_0->Some_0->Start_attributes;
    let tagged = V::tag_spec(V::initial(), name);
    let visited = attributes_spec::<V>(tagged.0, attributes, 0);
    content_ends_element::<V>(visited.0, name, pending, 1);
}

/// Calls `Clone::clone` on a tokenizer error.
#[verifier::external_body]
pub(crate) fn duplicate(error: &XmlError) -> XmlError {
    error.clone()
}

/// Hands the attributes of a start tag to the visitor, in document order,
/// each with the entity references of its value resolved, and stops at the
/// first failure.
pub fn visit_attributes<V: Visitor>(visitor: &mut V, attributes: &Vec<RawAttribute>) -> (r:
    std::result::Result<(), Error>)
    ensures
        (final(visitor).model(), outcome(r)) == attributes_spec::<V>(
            old(visitor).model(),
            attribute_views(attributes@),
            0,
        ),
{
    let mut i: usize = 0;
    while i < attributes.len()
        invariant
            0 <= i <= attributes.len(),
            attributes_spec::<V>(old(visitor).model(), attribute_views(attributes@), 0)
                == attributes_spec::<V>(visitor.model(), attribute_views(attributes@), i as int),
        decreases attributes.len() - i,
    {
        let attribute = &attributes[i];
        assert(attribute_views(attributes@)[i as int] == attribute@);
        match unescape(attribute.value.as_str()) {
            Err(error) => {
                return Err(Error::Xml(error));
            },
            Ok(value) => {
                match visitor.visit_attribute(attribute.name.as_str(), value.as_str()) {
                    Err(error) => {
                        return Err(error);
                    },
                    Ok(()) => {},
                }
            },
        }
        i = i + 1;
    }
    Ok(())
}

/// A wrapper around an [`EventSource`] that supports peeking XML events without consuming them
pub struct PeekingReader {
    source: EventSource,
    peeked_event: Option<Event>,
}

impl PeekingReader {
    /// The events that have not been consumed yet, a peeked one included.
    pub closed spec fn pending(&self) -> Seq<Token> {
        match self.peeked_event {
            Some(event) => seq![Token::Event(event@)] + self.source@,
            None => self.source@,
        }
    }

    /// Create a new [`PeekingReader`] over an event source
    pub fn new(source: EventSource) -> (reader: PeekingReader)
        ensures
            reader.pending() == source@,
            !reader.has_peeked(),
    {
        PeekingReader { source, peeked_event: None }
    }

    /// Create a new [`PeekingReader`] reading XML events from a buffer
    pub fn from_buf(input: &[u8]) -> (reader: PeekingReader)
        ensures
            reader.pending() == document_tokens(input@),
            !reader.has_peeked(),
    {
        PeekingReader::new(EventSource::from_buf(input))
    }

    /// Create a new [`PeekingReader`] reading XML events from a [`str`].
    pub fn from_str(input: &str) -> (reader: PeekingReader)
        ensures
            reader.pending() == document_tokens(input.spec_bytes()),
            !reader.has_peeked(),
    {
        PeekingReader::new(EventSource::from_str(input))
    }

    /// Consume this [`PeekingReader`] and returns the underlying event
    /// source. An event that was peeked and not read is dropped.
    pub fn into_inner(self) -> (source: EventSource)
        ensures
            source@ == if self.has_peeked() {
                self.pending().skip(1)
            } else {
                self.pending()
            },
    {
        assert(self.has_peeked() ==> self.pending().skip(1) =~= self.source@);
        self.source
    }

    /// Whether an event is buffered: it was peeked and not read yet. A
    /// buffered event is the head of [`pending`](PeekingReader::pending).
    pub closed spec fn has_peeked(&self) -> bool {
        self.peeked_event is Some
    }

    /// The number of events that have not been consumed yet.
    pub fn remaining(&self) -> (n: u128)
        ensures
            n == self.pending().len(),
    {
        let buffered: u128 = if self.peeked_event.is_some() {
            1
        } else {
            0
        };
        self.source.len() as u128 + buffered
    }

    /// Peek a single event without consuming it
    pub fn peek_event(&mut self) -> (r: std::result::Result<Option<&Event>, Error>)
        ensures
            match r {
                Ok(Some(event)) => head(old(self).pending()) == Ok::<Option<EventView>, ErrorView>(
                    Some(event@),
                ) && final(self).pending() == old(self).pending() && final(self).has_peeked(),
                Ok(None) => old(self).pending().len() == 0 && final(self).pending() == old(
                    self,
                ).pending() && !final(self).has_peeked(),
                Err(error) => head(old(self).pending()) == Err::<Option<EventView>, ErrorView>(
                    error@,
                ) && final(self).pending() == tail(old(self).pending())
                    && !final(self).has_peeked(),
            },
    {
        if self.peeked_event.is_none() {
            match self.source.next() {
                Ok(next) => {
                    self.peeked_event = next;
                },
                Err(error) => {
                    return Err(error);
                },
            }
            assert(self.pending() =~= old(self).pending());
        }
        Ok(self.peeked_event.as_ref())
    }

    /// Read an event, consuming it
    ///
    /// If an event has been peeked but not yet consumed, the previously peeked event will be returned.
    pub fn read_event(&mut self) -> (r: std::result::Result<Option<Event>, Error>)
        ensures
            read_view(r) == head(old(self).pending()),
            final(self).pending() == tail(old(self).pending()),
            !final(self).has_peeked(),
    {
        match self.peeked_event.take() {
            Some(event) => {
                assert(self.pending() =~= old(self).pending().skip(1));
                Ok(Some(event))
            },
            None => self.source.next(),
        }
    }

    /// Consume and discard the next element including all of its child elements
    pub fn skip_element(&mut self) -> (r: std::result::Result<(), Error>)
        ensures
            (outcome(r), final(self).pending()) == skip_spec(old(self).pending()),
            r is Ok ==> !final(self).has_peeked(),
    {
        let start_tag: String;
        match self.peek_event() {
            Err(error) => {
                return Err(error);
            },
            Ok(Some(Event::Start { name, .. })) => {
                start_tag = name.clone();
            },
            Ok(_) => {
                return Err(Error::MissingStart);
            },
        }
        // No more start tags can follow than the source holds events: the
        // depth stays within a machine word.
        let available: usize = self.source.len();
        match self.read_event() {
            Err(error) => {
                return Err(error);
            },
            Ok(_) => {},
        }
        let mut depth: usize = 0;
        loop
            invariant
                skip_spec(old(self).pending()) == skip_content_spec(
                    start_tag@,
                    self.pending(),
                    depth as nat,
                ),
                depth + self.pending().len() <= available,
            decreases self.pending().len(),
        {
            match self.peek_event() {
                Err(error) => {
                    return Err(error);
                },
                Ok(None) => {
                    return Err(Error::MissingEnd(start_tag));
                },
                Ok(Some(Event::End { name })) => {
                    let name = name.clone();
                    match self.read_event() {
                        Err(error) => {
                            return Err(error);
                        },
                        Ok(_) => {},
                    }
                    if depth == 0 {
                        if same_text(name.as_str(), start_tag.as_str()) {
                            return Ok(());
                        }
                        return Err(Error::WrongEnd(start_tag, name));
                    }
                    depth = depth - 1;
                },
                Ok(Some(Event::Start { .. })) => {
                    match self.read_event() {
                        Err(error) => {
                            return Err(error);
                        },
                        Ok(_) => {},
                    }
                    depth = depth + 1;
                },
                Ok(Some(_)) => {
                    match self.read_event() {
                        Err(error) => {
                            return Err(error);
                        },
                        Ok(_) => {},
                    }
                },
            }
        }
    }

    /// Read a single element from the XML input and deserialize it into a `T`
    pub fn deserialize<T: FromXml>(&mut self) -> (r: std::result::Result<T, Error>)
        ensures
            (built::<T::Visitor>(r), final(self).pending()) == decode_spec::<T::Visitor>(
                old(self).pending(),
            ),
            r is Ok ==> !final(self).has_peeked(),
    {
        let mut visitor = T::Visitor::fresh();
        let start_tag: String;
        match self.peek_event() {
            Err(error) => {
                return Err(error);
            },
            Ok(Some(Event::Start { name, attributes, malformed })) => {
                match T::Visitor::start_name() {
                    Some(expected) => {
                        if !same_text(name.as_str(), expected) {
                            return Err(Error::WrongStart(expected.to_owned(), name.clone()));
                        }
                    },
                    None => {},
                }
                match visitor.visit_tag(name.as_str()) {
                    Err(error) => {
                        return Err(error);
                    },
                    Ok(()) => {},
                }
                start_tag = name.clone();
                match visit_attributes(&mut visitor, attributes) {
                    Err(error) => {
                        return Err(error);
                    },
                    Ok(()) => {},
                }
                match malformed {
                    Some(error) => {
                        return Err(Error::Xml(duplicate(error)));
                    },
                    None => {},
                }
            },
            Ok(_) => {
                return Err(Error::MissingStart);
            },
        }
        match self.read_event() {
            Err(error) => {
                return Err(error);
            },
            Ok(_) => {},
        }
        loop
            invariant
                decode_spec::<T::Visitor>(old(self).pending()) == content_spec::<T::Visitor>(
                    visitor.model(),
                    start_tag@,
                    self.pending(),
                ),
            decreases self.pending().len(),
        {
            let ghost before = self.pending();
            let ghost m = visitor.model();
            match self.peek_event() {
                Err(error) => {
                    return Err(error);
                },
                Ok(None) => {
                    return Err(Error::MissingEnd(start_tag));
                },
                Ok(Some(Event::End { name })) => {
                    let name = name.clone();
                    match self.read_event() {
                        Err(error) => {
                            return Err(error);
                        },
                        Ok(_) => {},
                    }
                    if !same_text(name.as_str(), start_tag.as_str()) {
                        return Err(Error::WrongEnd(start_tag, name));
                    }
                    return visitor.build();
                },
                Ok(Some(Event::Text { content })) => {
                    match unescape(content.as_str()) {
                        Err(error) => {
                            return Err(Error::Xml(error));
                        },
                        Ok(text) => {
                            match visitor.visit_text(text.as_str()) {
                                Err(error) => {
                                    return Err(error);
                                },
                                Ok(()) => {},
                            }
                        },
                    }
                    match self.read_event() {
                        Err(error) => {
                            return Err(error);
                        },
                        Ok(_) => {},
                    }
                },
                Ok(Some(Event::Start { name, .. })) => {
                    let name = name.clone();
                    match visitor.visit_child(name.as_str(), self) {
                        Err(error) => {
                            return Err(error);
                        },
                        Ok(()) => {},
                    }
                    proof {
                        T::Visitor::child_is_consumed(m, name@, before);
                        consumed_is_shorter(before, self.pending());
                    }
                },
                Ok(Some(Event::Other)) => {
                    match self.read_event() {
                        Err(error) => {
                            return Err(error);
                        },
                        Ok(_) => {},
                    }
                },
            }
        }
    }
}

/// What a decode returns is determined by the events that the reader holds:
/// two decodes of the same events with the same visitor give the same
/// value, or the same error, and leave the same events.
pub proof fn decode_is_determined<V: Visitor>(
    pending: Seq<Token>,
    first: (std::result::Result<V::Value, ErrorView>, Seq<Token>),
    second: (std::result::Result<V::Value, ErrorView>, Seq<Token>),
)
    requires
        first == decode_spec::<V>(pending),
        second == decode_spec::<V>(pending),
    ensures
        first == second,
{
}

/// A decode of an element whose name is not the one that the visitor
/// expects fails with both names, and consumes nothing.
pub proof fn wrong_start_is_reported<V: Visitor>(pending: Seq<Token>, found: Seq<char>)
    requires
        pending.len() > 0,
        pending[0] is Event,
        pending[0]->Event_0 is Start,
        pending[0]->Event_0->Start_name == found,
        V::expected_name() is Some,
        V::expected_name()->Some_0 != found,
    ensures
        decode_spec::<V>(pending) == (
            Err::<V::Value, ErrorView>(ErrorView::WrongStart(V::expected_name()->Some_0, found)),
            pending,
        ),
{
}

/// A decode that succeeds has read an element of the expected name.
pub proof fn decoded_name_is_expected<V: Visitor>(pending: Seq<Token>)
    requires
        decode_spec::<V>(pending).0 is Ok,
    ensures
        pending.len() > 0,
        pending[0] is Event,
        pending[0]->Event_0 is Start,
        V::expected_name() is Some ==> V::expected_name()->Some_0
            == pending[0]->Event_0->Start_name,
{
}

/// Inside an element, an end tag of another name fails the decode with
/// both names, whatever the visitor has seen so far, and the visitor is not
/// asked to build.
pub proof fn wrong_end_is_reported<V: Visitor>(
    m: V::Model,
    open: Seq<char>,
    pending: Seq<Token>,
    found: Seq<char>,
)
    requires
        pending.len() > 0,
        pending[0] == Token::Event(EventView::End { name: found }),
        found != open,
    ensures
        content_spec::<V>(m, open, pending) == (
            Err::<V::Value, ErrorView>(ErrorView::WrongEnd(open, found)),
            pending.skip(1),
        ),
{
}

/// At the depth of the skipped element, an end tag of another name fails
/// the skip with both names.
pub proof fn skip_reports_wrong_end(open: Seq<char>, pending: Seq<Token>, found: Seq<char>)
    requires
        pending.len() > 0,
        pending[0] == Token::Event(EventView::End { name: found }),
        found != open,
    ensures
        skip_content_spec(open, pending, 0) == (
            Err::<(), ErrorView>(ErrorView::WrongEnd(open, found)),
            pending.skip(1),
        ),
{
}

/// The first error ends a decode: where the visitor fails on a text, the
/// decode fails with that error, and the text is left unread.
pub proof fn text_error_ends_decode<V: Visitor>(
    m: V::Model,
    open: Seq<char>,
    pending: Seq<Token>,
    text: Seq<char>,
)
    requires
        pending.len() > 0,
        pending[0] is Event,
        pending[0]->Event_0 is Text,
        unescaped(pending[0]->Event_0->Text_content) == Some(text),
        V::text_spec(m, text).1 is Err,
    ensures
        content_spec::<V>(m, open, pending) == (
            Err::<V::Value, ErrorView>(V::text_spec(m, text).1->Err_0),
            pending,
        ),
{
}

} // verus!
