//! A report of any tag name, whose `data` child may be missing or empty,
//! with visitors that are written out method by method.

use crate::error::{Error, ErrorView};
use crate::escape::same_text;
use crate::event::Token;
use crate::impls::{reject_attribute, reject_child, OptionalVisitor};
use crate::nesting::skip_is_rest;
use crate::reader::{decode_consumes_element, decode_leaves_rest, decode_spec, PeekingReader};
use crate::visitor::{FromXml, Step, Visitor};
use vstd::prelude::*;

verus! {

/// A report with an identifier and optional data.
#[derive(Debug, PartialEq)]
pub struct Report {
    pub id: String,
    pub data: Option<ReportData>,
}

/// The `data` child of a report: its text.
#[derive(Debug, PartialEq)]
pub struct ReportData {
    pub data: String,
}

/// The visitor of a [`ReportData`]: it keeps the text of the element.
pub struct ReportDataVisitor {
    data: Option<String>,
}

/// The content of an optional text.
pub open spec fn text_view(text: Option<String>) -> Option<Seq<char>> {
    match text {
        Some(text) => Some(text@),
        None => None,
    }
}

impl Visitor for ReportDataVisitor {
    type Output = ReportData;

    /// The text, once one was visited.
    type Model = Option<Seq<char>>;

    /// The text.
    type Value = Seq<char>;

    closed spec fn model(&self) -> Option<Seq<char>> {
        text_view(self.data)
    }

    open spec fn value(output: &ReportData) -> Seq<char> {
        output.data@
    }

    open spec fn initial() -> Option<Seq<char>> {
        None
    }

    open spec fn expected_name() -> Option<Seq<char>> {
        None
    }

    open spec fn tag_spec(m: Option<Seq<char>>, name: Seq<char>) -> Step<Option<Seq<char>>> {
        (m, Ok(()))
    }

    open spec fn attribute_spec(m: Option<Seq<char>>, name: Seq<char>, value: Seq<char>) -> Step<
        Option<Seq<char>>,
    > {
        (m, Err(ErrorView::UnexpectedAttribute(name)))
    }

    /// The text is kept; a text after the first is an error.
    open spec fn text_spec(m: Option<Seq<char>>, text: Seq<char>) -> Step<Option<Seq<char>>> {
        if m is Some {
            (Some(text), Err(ErrorView::DoubleText))
        } else {
            (Some(text), Ok(()))
        }
    }

    open spec fn child_spec(m: Option<Seq<char>>, name: Seq<char>, pending: Seq<Token>) -> (
        Step<Option<Seq<char>>>,
        Seq<Token>,
    ) {
        ((m, Err(ErrorView::UnexpectedChild(name))), pending)
    }

    open spec fn build_spec(m: Option<Seq<char>>) -> std::result::Result<Seq<char>, ErrorView> {
        match m {
            Some(text) => Ok(text),
            None => Err(ErrorView::MissingText),
        }
    }

    proof fn child_is_consumed(m: Option<Seq<char>>, name: Seq<char>, pending: Seq<Token>) {
        skip_is_rest(pending, 0);
    }

    fn fresh() -> Self {
        ReportDataVisitor { data: None }
    }

    fn start_name() -> Option<&'static str> {
        None
    }

    fn visit_tag(&mut self, name: &str) -> std::result::Result<(), Error> {
        Ok(())
    }

    fn visit_attribute(&mut self, name: &str, value: &str) -> std::result::Result<(), Error> {
        reject_attribute(name)
    }

    fn visit_child(&mut self, name: &str, reader: &mut PeekingReader) -> std::result::Result<
        (),
        Error,
    > {
        reject_child(name)
    }

    fn visit_text(&mut self, text: &str) -> std::result::Result<(), Error> {
        let double = self.data.is_some();
        self.data = Some(text.to_owned());
        if double {
            Err(Error::DoubleText)
        } else {
            Ok(())
        }
    }

    fn build(self) -> std::result::Result<ReportData, Error> {
        match self.data {
            Some(data) => Ok(ReportData { data }),
            None => Err(Error::MissingText),
        }
    }
}

impl FromXml for ReportData {
    type Visitor = ReportDataVisitor;
}

/// The visitor of a [`Report`]: it keeps the `id` attribute and decodes
/// the `data` child.
pub struct ReportVisitor {
    id: Option<String>,
    data: Option<ReportData>,
}

impl Visitor for ReportVisitor {
    type Output = Report;

    /// The identifier, once it was visited, and the text of the data, once
    /// a `data` child gave one.
    type Model = (Option<Seq<char>>, Option<Seq<char>>);

    /// The identifier and the text of the data, if there is any.
    type Value = (Seq<char>, Option<Seq<char>>);

    closed spec fn model(&self) -> Self::Model {
        (
            text_view(self.id),
            match self.data {
                Some(data) => Some(data.data@),
                None => None,
            },
        )
    }

    open spec fn value(output: &Report) -> Self::Value {
        (
            output.id@,
            match output.data {
                Some(data) => Some(data.data@),
                None => None,
            },
        )
    }

    open spec fn initial() -> Self::Model {
        (None, None)
    }

    open spec fn expected_name() -> Option<Seq<char>> {
        None
    }

    open spec fn tag_spec(m: Self::Model, name: Seq<char>) -> Step<Self::Model> {
        (m, Ok(()))
    }

    open spec fn attribute_spec(m: Self::Model, name: Seq<char>, value: Seq<char>) -> Step<
        Self::Model,
    > {
        if name == "id"@ {
            ((Some(value), m.1), Ok(()))
        } else {
            (m, Err(ErrorView::UnexpectedAttribute(name)))
        }
    }

    open spec fn text_spec(m: Self::Model, text: Seq<char>) -> Step<Self::Model> {
        (m, Err(ErrorView::UnexpectedText))
    }

    /// A `data` child is decoded as optional data, once: a second one is an
    /// error where the first gave data.
    open spec fn child_spec(m: Self::Model, name: Seq<char>, pending: Seq<Token>) -> (
        Step<Self::Model>,
        Seq<Token>,
    ) {
        if name != "data"@ {
            ((m, Err(ErrorView::UnexpectedChild(name))), pending)
        } else if m.1 is Some {
            ((m, Err(ErrorView::DoubleChild(name))), pending)
        } else {
            let (decoded, rest) = decode_spec::<OptionalVisitor<ReportData>>(pending);
            match decoded {
                Ok(data) => (((m.0, data), Ok(())), rest),
                Err(error) => ((m, Err(error)), rest),
            }
        }
    }

    open spec fn build_spec(m: Self::Model) -> std::result::Result<Self::Value, ErrorView> {
        match m.0 {
            Some(id) => Ok((id, m.1)),
            None => Err(ErrorView::MissingAttribute("id"@)),
        }
    }

    proof fn child_is_consumed(m: Self::Model, name: Seq<char>, pending: Seq<Token>) {
        skip_is_rest(pending, 0);
        decode_leaves_rest::<OptionalVisitor<ReportData>>(pending);
        if decode_spec::<OptionalVisitor<ReportData>>(pending).0 is Ok {
            decode_consumes_element::<OptionalVisitor<ReportData>>(pending);
        }
    }

    fn fresh() -> Self {
        ReportVisitor { id: None, data: None }
    }

    fn start_name() -> Option<&'static str> {
        None
    }

    fn visit_tag(&mut self, name: &str) -> std::result::Result<(), Error> {
        Ok(())
    }

    fn visit_attribute(&mut self, name: &str, value: &str) -> std::result::Result<(), Error> {
        if same_text(name, "id") {
            self.id = Some(value.to_owned());
            Ok(())
        } else {
            reject_attribute(name)
        }
    }

    fn visit_child(&mut self, name: &str, reader: &mut PeekingReader) -> std::result::Result<
        (),
        Error,
    > {
        if !same_text(name, "data") {
            return reject_child(name);
        }
        if self.data.is_some() {
            return Err(Error::DoubleChild(name.to_owned()));
        }
        match reader.deserialize::<Option<ReportData>>() {
            Ok(data) => {
                self.data = data;
                Ok(())
            },
            Err(error) => Err(error),
        }
    }

    fn visit_text(&mut self, text: &str) -> std::result::Result<(), Error> {
        Err(Error::UnexpectedText)
    }

    fn build(self) -> std::result::Result<Report, Error> {
        match self.id {
            Some(id) => Ok(Report { id, data: self.data }),
            None => Err(Error::MissingAttribute("id".to_owned())),
        }
    }
}

impl FromXml for Report {
    type Visitor = ReportVisitor;
}

} // verus!
