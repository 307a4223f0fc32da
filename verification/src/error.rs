//! The [`Error`] and [`Result`] types shared by the reader, the visitors and
//! the adapters.

use quick_xml::Error as XmlError;
use vstd::prelude::*;
use vstd::std_specs::convert::FromSpecImpl;
use vstd::string::StringExecFns;

verus! {

/// Error of the underlying tokenizer. Its contents are not inspected by
/// verified code; it is only carried inside [`Error::Xml`].
#[verifier::external_type_specification]
#[verifier::external_body]
pub struct ExXmlError(XmlError);

/// A [`Result`](std::result::Result) using [`Error`] as the error type
pub type Result<T> = std::result::Result<T, Error>;

/// The error type for this crate
#[derive(Debug)]
pub enum Error {
    /// Failed to parse XML
    Xml(XmlError),
    /// Start element doesn't match the expected element
    WrongStart(String, String),
    /// End element doesn't match the expected element
    WrongEnd(String, String),
    /// Start element missing
    MissingStart,
    /// The input ended inside the named element, before its end element.
    /// A source of events is finite: where nothing is left to read, a decode
    /// or a skip ends with this error and does not wait for more.
    MissingEnd(String),
    /// Missing required attribute
    MissingAttribute(String),
    /// Missing required child element
    MissingChild(String),
    /// Missing required element text
    MissingText,
    /// Encountered multiple child elements with the given name when only one was expected
    DoubleChild(String),
    /// Encountered multiple text events when only one was expected
    DoubleText,
    /// Encountered an unexpected attribute
    UnexpectedAttribute(String),
    /// Encountered an unexpected child element
    UnexpectedChild(String),
    /// Encountered an unexpected text event
    UnexpectedText,
    /// General deserialization error
    Deserialization(String),
}

/// Mathematical content of an [`Error`]: the kind and the names or message it
/// carries. A tokenizer error is represented by its kind alone.
pub enum ErrorView {
    Xml,
    WrongStart(Seq<char>, Seq<char>),
    WrongEnd(Seq<char>, Seq<char>),
    MissingStart,
    MissingEnd(Seq<char>),
    MissingAttribute(Seq<char>),
    MissingChild(Seq<char>),
    MissingText,
    DoubleChild(Seq<char>),
    DoubleText,
    UnexpectedAttribute(Seq<char>),
    UnexpectedChild(Seq<char>),
    UnexpectedText,
    Deserialization(Seq<char>),
}

impl View for Error {
    type V = ErrorView;

    open spec fn view(&self) -> ErrorView {
        match self {
            Error::Xml(_) => ErrorView::Xml,
            Error::WrongStart(expected, found) => ErrorView::WrongStart(expected@, found@),
            Error::WrongEnd(expected, found) => ErrorView::WrongEnd(expected@, found@),
            Error::MissingStart => ErrorView::MissingStart,
            Error::MissingEnd(name) => ErrorView::MissingEnd(name@),
            Error::MissingAttribute(name) => ErrorView::MissingAttribute(name@),
            Error::MissingChild(name) => ErrorView::MissingChild(name@),
            Error::MissingText => ErrorView::MissingText,
            Error::DoubleChild(name) => ErrorView::DoubleChild(name@),
            Error::DoubleText => ErrorView::DoubleText,
            Error::UnexpectedAttribute(name) => ErrorView::UnexpectedAttribute(name@),
            Error::UnexpectedChild(name) => ErrorView::UnexpectedChild(name@),
            Error::UnexpectedText => ErrorView::UnexpectedText,
            Error::Deserialization(message) => ErrorView::Deserialization(message@),
        }
    }
}

/// The outcome of a visitor step as a mathematical value: success, or the
/// content of the error.
pub open spec fn outcome(r: Result<()>) -> std::result::Result<(), ErrorView> {
    match r {
        Ok(()) => Ok(()),
        Err(e) => Err(e@),
    }
}

/// The text before the tokenizer's own description in the message of
/// [`Error::Xml`].
pub open spec fn xml_prefix() -> Seq<char> {
    "Failed to parse XML: "@
}

/// The message of an error, for every kind but [`ErrorView::Xml`], whose
/// message is [`xml_prefix`] followed by the tokenizer's description.
pub open spec fn message_of(error: ErrorView) -> Seq<char> {
    match error {
        ErrorView::Xml => xml_prefix(),
        ErrorView::WrongStart(expected, found) => "Expected start element <"@ + expected
            + ">, found <"@ + found + ">"@,
        ErrorView::WrongEnd(expected, found) => "Expected end element </"@ + expected
            + ">, found </"@ + found + ">"@,
        ErrorView::MissingStart => "Missing start element"@,
        ErrorView::MissingEnd(name) => "Missing end element </"@ + name + ">"@,
        ErrorView::MissingAttribute(name) => "Missing attribute "@ + name,
        ErrorView::MissingChild(name) => "Missing child <"@ + name + ">"@,
        ErrorView::MissingText => "Missing element text"@,
        ErrorView::DoubleChild(name) => "Found multiple child elements <"@ + name
            + ">, but only expected one"@,
        ErrorView::DoubleText => "Element contains multiple text events"@,
        ErrorView::UnexpectedAttribute(name) => "Found unexpected attribute "@ + name,
        ErrorView::UnexpectedChild(name) => "Found unexpected child element <"@ + name + ">"@,
        ErrorView::UnexpectedText => "Found unexpected text"@,
        ErrorView::Deserialization(message) => "Deserialization error: "@ + message,
    }
}

/// Calls `Display::fmt` of the tokenizer's error: its description.
#[verifier::external_body]
fn describe(error: &XmlError) -> String {
    format!("{}", error)
}

/// `before`, then `name`, then `after`.
fn framed(before: &str, name: &str, after: &str) -> (text: String)
    ensures
        text@ == before@ + name@ + after@,
{
    let mut text = before.to_owned();
    text.append(name);
    text.append(after);
    text
}

impl Error {
    /// The message of the error, for a reader.
    pub fn message(&self) -> (text: String)
        ensures
            match self {
                Error::Xml(_) => text@.len() >= xml_prefix().len() && text@.take(
                    xml_prefix().len() as int,
                ) == xml_prefix(),
                _ => text@ == message_of(self@),
            },
    {
        match self {
            Error::Xml(error) => {
                let description = describe(error);
                let text = framed("Failed to parse XML: ", description.as_str(), "");
                assert(text@.take(xml_prefix().len() as int) =~= xml_prefix());
                text
            },
            Error::WrongStart(expected, found) => {
                let mut text = framed("Expected start element <", expected.as_str(), ">, found <");
                text.append(found.as_str());
                text.append(">");
                text
            },
            Error::WrongEnd(expected, found) => {
                let mut text = framed("Expected end element </", expected.as_str(), ">, found </");
                text.append(found.as_str());
                text.append(">");
                text
            },
            Error::MissingStart => "Missing start element".to_owned(),
            Error::MissingEnd(name) => framed("Missing end element </", name.as_str(), ">"),
            Error::MissingAttribute(name) => {
                let text = framed("Missing attribute ", name.as_str(), "");
                proof {
                    reveal_strlit("");
                }
                assert(text@ =~= "Missing attribute "@ + name@);
                text
            },
            Error::MissingChild(name) => framed("Missing child <", name.as_str(), ">"),
            Error::MissingText => "Missing element text".to_owned(),
            Error::DoubleChild(name) => framed(
                "Found multiple child elements <",
                name.as_str(),
                ">, but only expected one",
            ),
            Error::DoubleText => "Element contains multiple text events".to_owned(),
            Error::UnexpectedAttribute(name) => {
                let text = framed("Found unexpected attribute ", name.as_str(), "");
                proof {
                    reveal_strlit("");
                }
                assert(text@ =~= "Found unexpected attribute "@ + name@);
                text
            },
            Error::UnexpectedChild(name) => framed(
                "Found unexpected child element <",
                name.as_str(),
                ">",
            ),
            Error::UnexpectedText => "Found unexpected text".to_owned(),
            Error::Deserialization(message) => {
                let text = framed("Deserialization error: ", message.as_str(), "");
                proof {
                    reveal_strlit("");
                }
                assert(text@ =~= "Deserialization error: "@ + message@);
                text
            },
        }
    }
}

impl From<XmlError> for Error {
    fn from(error: XmlError) -> (r: Error) {
        Error::Xml(error)
    }
}

impl FromSpecImpl<XmlError> for Error {
    open spec fn obeys_from_spec() -> bool {
        true
    }

    open spec fn from_spec(error: XmlError) -> Error {
        Error::Xml(error)
    }
}

} // verus!
