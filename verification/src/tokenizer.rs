//! The boundary to the tokenizer, `quick_xml`: its types as far as the
//! library holds them, and one function for each of its functions that the
//! library calls. None of these is verified; each states what it claims of
//! the function that it calls.

use quick_xml::Error as XmlError;
use vstd::prelude::*;
use vstd::utf8::{decode_utf8, valid_utf8};

verus! {

/// The tokenizer over a source of bytes.
#[verifier::external_type_specification]
#[verifier::external_body]
#[verifier::reject_recursive_types(R)]
pub struct ExReader<R>(quick_xml::Reader<R>);

/// The tokenizer's decoder of bytes into text.
#[verifier::external_type_specification]
#[verifier::external_body]
pub struct ExDecoder(quick_xml::Decoder);

/// The tokenizer's start tag.
#[verifier::external_type_specification]
#[verifier::external_body]
pub struct ExBytesStart<'a>(quick_xml::events::BytesStart<'a>);

/// The tokenizer's end tag.
#[verifier::external_type_specification]
#[verifier::external_body]
pub struct ExBytesEnd<'a>(quick_xml::events::BytesEnd<'a>);

/// The tokenizer's character data.
#[verifier::external_type_specification]
#[verifier::external_body]
pub struct ExBytesText<'a>(quick_xml::events::BytesText<'a>);

/// The tokenizer's iterator over the attributes of a start tag.
#[verifier::external_type_specification]
#[verifier::external_body]
pub struct ExAttributes<'a>(quick_xml::events::attributes::Attributes<'a>);

/// An attribute as the tokenizer's iterator yields it.
#[verifier::external_type_specification]
#[verifier::external_body]
pub struct ExAttribute<'a>(quick_xml::events::attributes::Attribute<'a>);

/// The tokenizer's error for an attribute.
#[verifier::external_type_specification]
#[verifier::external_body]
pub struct ExAttrError(quick_xml::events::attributes::AttrError);

/// What the tokenizer read: the event kinds that the decode engine tells
/// apart, with the tokenizer's own value for each.
pub enum Lexeme<'a> {
    Start(quick_xml::events::BytesStart<'a>),
    Empty(quick_xml::events::BytesStart<'a>),
    End(quick_xml::events::BytesEnd<'a>),
    Text(quick_xml::events::BytesText<'a>),
    Other,
    Eof,
}

/// The key and the value of an attribute, as the bytes of the document.
pub struct AttributeBytes {
    pub key: Vec<u8>,
    pub value: Vec<u8>,
}

/// What the tokenizer's attribute iterator yields for one attribute: the
/// bytes of its key and of its value, or `None` where the tokenizer rejects
/// the attribute.
pub type RawPair = Option<(Seq<u8>, Seq<u8>)>;

/// One result of the tokenizer before the end of the input, as plain
/// values: the kind, and the bytes that it holds.
pub enum RawItem {
    /// A start tag: the bytes of its local name, and its attributes.
    Start { name: Seq<u8>, attributes: Seq<RawPair> },
    /// An empty-element tag that was not expanded.
    Empty { name: Seq<u8>, attributes: Seq<RawPair> },
    /// An end tag: the bytes of its local name.
    End { name: Seq<u8> },
    /// Character data: its bytes.
    Text { content: Seq<u8> },
    /// Any other event.
    Other,
    /// An error of the tokenizer.
    Failure,
}

/// The results that a tokenizer over a byte slice has yet to give before
/// it reports the end of its input, in order.
pub uninterp spec fn upcoming(reader: quick_xml::Reader<&[u8]>) -> Seq<RawItem>;

/// The results that a tokenizer gives for a document, with the settings
/// that a new tokenizer has.
pub uninterp spec fn lexemes(input: Seq<u8>) -> Seq<RawItem>;

/// What results become when empty-element tags are expanded: each of them
/// is a start tag followed by an end tag of the same local name, and every
/// other result stays as it is.
pub open spec fn expanded(items: Seq<RawItem>) -> Seq<RawItem>
    decreases items.len(),
{
    if items.len() == 0 {
        Seq::empty()
    } else {
        match items[0] {
            RawItem::Empty { name, attributes } => seq![
                RawItem::Start { name, attributes },
                RawItem::End { name },
            ] + expanded(items.skip(1)),
            item => seq![item] + expanded(items.skip(1)),
        }
    }
}

/// Whether a byte is white space to the tokenizer: a space, a tab, a
/// carriage return or a line feed.
pub open spec fn is_white(byte: u8) -> bool {
    byte == 32 || byte == 9 || byte == 13 || byte == 10
}

/// Bytes without the white space at their start.
pub open spec fn trim_start(bytes: Seq<u8>) -> Seq<u8>
    decreases bytes.len(),
{
    if bytes.len() > 0 && is_white(bytes[0]) {
        trim_start(bytes.skip(1))
    } else {
        bytes
    }
}

/// Bytes without the white space at their end.
pub open spec fn trim_end(bytes: Seq<u8>) -> Seq<u8>
    decreases bytes.len(),
{
    if bytes.len() > 0 && is_white(bytes.last()) {
        trim_end(bytes.drop_last())
    } else {
        bytes
    }
}

/// What results become when character data is trimmed: character data
/// loses the white space at its start and at its end and is left out where
/// nothing remains, and every other result stays as it is.
pub open spec fn trimmed(items: Seq<RawItem>) -> Seq<RawItem>
    decreases items.len(),
{
    if items.len() == 0 {
        Seq::empty()
    } else {
        match items[0] {
            RawItem::Text { content } => {
                let kept = trim_end(trim_start(content));
                if kept.len() == 0 {
                    trimmed(items.skip(1))
                } else {
                    seq![RawItem::Text { content: kept }] + trimmed(items.skip(1))
                }
            },
            item => seq![item] + trimmed(items.skip(1)),
        }
    }
}

/// The bytes of the local name that a start tag holds.
pub uninterp spec fn start_local(start: quick_xml::events::BytesStart) -> Seq<u8>;

/// The attributes that a start tag holds, as its iterator yields them.
pub uninterp spec fn start_attributes(start: quick_xml::events::BytesStart) -> Seq<RawPair>;

/// The bytes of the local name that an end tag holds.
pub uninterp spec fn end_local(end: quick_xml::events::BytesEnd) -> Seq<u8>;

/// The bytes that character data holds.
pub uninterp spec fn text_content(text: quick_xml::events::BytesText) -> Seq<u8>;

/// The attributes that an iterator has yet to yield, in order.
pub uninterp spec fn attributes_pending(
    attributes: quick_xml::events::attributes::Attributes,
) -> Seq<RawPair>;

/// The text that bytes decode to, or `None` where they are not the UTF-8
/// encoding of a text.
pub open spec fn decoded(bytes: Seq<u8>) -> Option<Seq<char>> {
    if valid_utf8(bytes) {
        Some(decode_utf8(bytes))
    } else {
        None
    }
}

/// What the tokenizer read, as plain values. The end of the input is no
/// result; it stands as [`RawItem::Other`] here.
pub open spec fn lexeme_item(lexeme: Lexeme) -> RawItem {
    match lexeme {
        Lexeme::Start(start) => RawItem::Start {
            name: start_local(start),
            attributes: start_attributes(start),
        },
        Lexeme::Empty(start) => RawItem::Empty {
            name: start_local(start),
            attributes: start_attributes(start),
        },
        Lexeme::End(end) => RawItem::End { name: end_local(end) },
        Lexeme::Text(text) => RawItem::Text { content: text_content(text) },
        Lexeme::Other => RawItem::Other,
        Lexeme::Eof => RawItem::Other,
    }
}

/// The attribute that the iterator yielded, as plain values.
pub open spec fn pair_of(item: std::result::Result<AttributeBytes, XmlError>) -> RawPair {
    match item {
        Ok(attribute) => Some((attribute.key@, attribute.value@)),
        Err(_) => None,
    }
}

/// Calls `Reader::from_reader` on a byte slice. What the new tokenizer
/// gives depends on the bytes alone: the contract names it.
#[verifier::external_body]
pub(crate) fn open<'a>(input: &'a [u8]) -> (reader: quick_xml::Reader<&'a [u8]>)
    ensures
        upcoming(reader) == lexemes(input@),
{
    quick_xml::Reader::from_reader(input)
}

/// Calls `Reader::expand_empty_elements` with `true`: an empty-element tag
/// is then read as a start tag followed by an end tag of the same name,
/// and every other result stays as it is.
#[verifier::external_body]
pub(crate) fn expand_empty_elements(reader: &mut quick_xml::Reader<&[u8]>)
    ensures
        upcoming(*final(reader)) == expanded(upcoming(*old(reader))),
{
    reader.expand_empty_elements(true);
}

/// Calls `Reader::trim_text` with `true`: character data is then read
/// without the white space around it, and not at all where nothing is
/// left, and every other result stays as it is.
#[verifier::external_body]
pub(crate) fn trim_text(reader: &mut quick_xml::Reader<&[u8]>)
    ensures
        upcoming(*final(reader)) == trimmed(upcoming(*old(reader))),
{
    reader.trim_text(true);
}

/// Calls `Reader::decoder`.
#[verifier::external_body]
pub(crate) fn decoder(reader: &quick_xml::Reader<&[u8]>) -> quick_xml::Decoder {
    reader.decoder()
}

/// Calls `Reader::read_event` on a tokenizer over a byte slice. The
/// tokenizer gives its results one after the other; it reaches the end of
/// its input after finitely many, and after an error it reports the end of
/// the input. The contract says that the call hands out the first of the
/// results that were yet to come and leaves the others.
#[verifier::external_body]
pub(crate) fn read<'a>(reader: &mut quick_xml::Reader<&'a [u8]>) -> (r: std::result::Result<
    Lexeme<'a>,
    XmlError,
>)
    ensures
        match r {
            Ok(Lexeme::Eof) => upcoming(*old(reader)).len() == 0 && upcoming(*final(reader))
                == upcoming(*old(reader)),
            Ok(lexeme) => upcoming(*old(reader)).len() > 0 && upcoming(*old(reader))[0]
                == lexeme_item(lexeme) && upcoming(*final(reader)) == upcoming(
                *old(reader),
            ).skip(1),
            Err(_) => upcoming(*old(reader)).len() > 0 && upcoming(*old(reader))[0]
                == RawItem::Failure && upcoming(*final(reader)) == upcoming(*old(reader)).skip(1),
        },
{
    match reader.read_event() {
        Ok(quick_xml::events::Event::Start(start)) => Ok(Lexeme::Start(start)),
        Ok(quick_xml::events::Event::Empty(start)) => Ok(Lexeme::Empty(start)),
        Ok(quick_xml::events::Event::End(end)) => Ok(Lexeme::End(end)),
        Ok(quick_xml::events::Event::Text(text)) => Ok(Lexeme::Text(text)),
        Ok(quick_xml::events::Event::Eof) => Ok(Lexeme::Eof),
        Ok(_) => Ok(Lexeme::Other),
        Err(error) => Err(error),
    }
}

/// Calls `Decoder::decode`. The tokenizer is built without its `encoding`
/// feature, so every decoder decodes UTF-8: the call gives the text that
/// the bytes encode, and fails exactly where they are not valid UTF-8.
#[verifier::external_body]
pub(crate) fn decode(decoder: &quick_xml::Decoder, bytes: &[u8]) -> (r: std::result::Result<
    String,
    XmlError,
>)
    ensures
        match r {
            Ok(text) => decoded(bytes@) == Some(text@),
            Err(_) => decoded(bytes@) is None,
        },
{
    match decoder.decode(bytes) {
        Ok(text) => Ok(text.into_owned()),
        Err(error) => Err(error),
    }
}

/// Calls `BytesStart::local_name`: the bytes of the local name that the
/// start tag holds.
#[verifier::external_body]
pub(crate) fn start_local_name<'a>(start: &'a quick_xml::events::BytesStart<'a>) -> (name:
    &'a [u8])
    ensures
        name@ == start_local(*start),
{
    start.local_name().into_inner()
}

/// Calls `BytesEnd::local_name`: the bytes of the local name that the end
/// tag holds.
#[verifier::external_body]
pub(crate) fn end_local_name<'a>(end: &'a quick_xml::events::BytesEnd<'a>) -> (name: &'a [u8])
    ensures
        name@ == end_local(*end),
{
    end.local_name().into_inner()
}

/// Calls `Deref::deref` of `BytesText`: the bytes that the character data
/// holds.
#[verifier::external_body]
pub(crate) fn text_bytes<'a>(text: &'a quick_xml::events::BytesText<'a>) -> (content: &'a [u8])
    ensures
        content@ == text_content(*text),
{
    std::ops::Deref::deref(text)
}

/// Calls `BytesStart::attributes`: an iterator that has yet to yield all
/// the attributes that the start tag holds.
#[verifier::external_body]
pub(crate) fn attributes_of<'a>(start: &'a quick_xml::events::BytesStart<'a>) -> (attributes:
    quick_xml::events::attributes::Attributes<'a>)
    ensures
        attributes_pending(attributes) == start_attributes(*start),
{
    start.attributes()
}

/// Calls `Iterator::next` of `Attributes`. The iterator goes through the
/// bytes of one start tag and yields finitely many attributes, going on
/// after one that it rejects. The contract says that the call hands out
/// the first of the attributes that were yet to come and leaves the others.
#[verifier::external_body]
pub(crate) fn next_attribute(attributes: &mut quick_xml::events::attributes::Attributes) -> (r:
    Option<std::result::Result<AttributeBytes, XmlError>>)
    ensures
        match r {
            Some(item) => attributes_pending(*old(attributes)).len() > 0 && attributes_pending(
                *old(attributes),
            )[0] == pair_of(item) && attributes_pending(*final(attributes))
                == attributes_pending(*old(attributes)).skip(1),
            None => attributes_pending(*old(attributes)).len() == 0 && attributes_pending(
                *final(attributes),
            ) == attributes_pending(*old(attributes)),
        },
{
    match attributes.next() {
        Some(Ok(attribute)) => Some(
            Ok(AttributeBytes { key: attribute.key.into_inner().to_vec(), value: attribute.value.into_owned() }),
        ),
        Some(Err(error)) => Some(Err(XmlError::from(error))),
        None => None,
    }
}

} // verus!
