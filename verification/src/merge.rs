//! Merging of several visitors over one element: each attribute, text and
//! child is offered to the candidates in order, and the first that does not
//! reject it as unexpected claims it.

use crate::error::{Error, ErrorView};
use crate::event::Token;
use crate::impls::OptionalVisitor;
use crate::nesting::{consumed_is_shorter, rest_of_rest, skip_is_rest};
use crate::reader::PeekingReader;
use crate::visitor::{FromXml, Step, Visitor};
use vstd::prelude::*;

verus! {

/// Whether a step ended in the rejection of an attribute as unexpected.
pub open spec fn rejects_attribute(r: std::result::Result<(), ErrorView>) -> bool {
    r is Err && r->Err_0 is UnexpectedAttribute
}

/// Whether a step ended in the rejection of a child as unexpected.
pub open spec fn rejects_child(r: std::result::Result<(), ErrorView>) -> bool {
    r is Err && r->Err_0 is UnexpectedChild
}

/// Whether a step ended in the rejection of text as unexpected.
pub open spec fn rejects_text(r: std::result::Result<(), ErrorView>) -> bool {
    r is Err && r->Err_0 is UnexpectedText
}

/// Two candidates over one element. `first` is offered each attribute, text
/// and child before `second`; `second` sees only what `first` rejected as
/// unexpected. The tag is handed to both.
pub struct Merged<A: Visitor, B: Visitor> {
    first: A,
    second: B,
}

impl<A: Visitor, B: Visitor> Visitor for Merged<A, B> {
    type Output = (A::Output, B::Output);

    type Model = (A::Model, B::Model);

    type Value = (A::Value, B::Value);

    closed spec fn model(&self) -> Self::Model {
        (self.first.model(), self.second.model())
    }

    open spec fn value(output: &(A::Output, B::Output)) -> Self::Value {
        (A::value(&output.0), B::value(&output.1))
    }

    open spec fn initial() -> Self::Model {
        (A::initial(), B::initial())
    }

    open spec fn expected_name() -> Option<Seq<char>> {
        None
    }

    open spec fn tag_spec(m: Self::Model, name: Seq<char>) -> Step<Self::Model> {
        let first = A::tag_spec(m.0, name);
        if first.1 is Err {
            ((first.0, m.1), first.1)
        } else {
            let second = B::tag_spec(m.1, name);
            ((first.0, second.0), second.1)
        }
    }

    open spec fn attribute_spec(m: Self::Model, name: Seq<char>, value: Seq<char>) -> Step<
        Self::Model,
    > {
        let first = A::attribute_spec(m.0, name, value);
        if rejects_attribute(first.1) {
            let second = B::attribute_spec(m.1, name, value);
            ((first.0, second.0), second.1)
        } else {
            ((first.0, m.1), first.1)
        }
    }

    open spec fn text_spec(m: Self::Model, text: Seq<char>) -> Step<Self::Model> {
        let first = A::text_spec(m.0, text);
        if rejects_text(first.1) {
            let second = B::text_spec(m.1, text);
            ((first.0, second.0), second.1)
        } else {
            ((first.0, m.1), first.1)
        }
    }

    /// A candidate that took events from the reader has claimed the child,
    /// whatever it returned: the child goes to `second` only where `first`
    /// rejected it and left the reader as it was.
    open spec fn child_spec(m: Self::Model, name: Seq<char>, pending: Seq<Token>) -> (
        Step<Self::Model>,
        Seq<Token>,
    ) {
        let (first, rest) = A::child_spec(m.0, name, pending);
        if rejects_child(first.1) && rest.len() == pending.len() {
            let (second, rest) = B::child_spec(m.1, name, pending);
            (((first.0, second.0), second.1), rest)
        } else {
            (((first.0, m.1), first.1), rest)
        }
    }

    open spec fn build_spec(m: Self::Model) -> std::result::Result<Self::Value, ErrorView> {
        match A::build_spec(m.0) {
            Err(error) => Err(error),
            Ok(first) => match B::build_spec(m.1) {
                Err(error) => Err(error),
                Ok(second) => Ok((first, second)),
            },
        }
    }

    proof fn child_is_consumed(m: Self::Model, name: Seq<char>, pending: Seq<Token>) {
        A::child_is_consumed(m.0, name, pending);
        B::child_is_consumed(m.1, name, pending);
    }

    fn fresh() -> Self {
        Merged { first: A::fresh(), second: B::fresh() }
    }

    fn start_name() -> Option<&'static str> {
        None
    }

    fn visit_tag(&mut self, name: &str) -> std::result::Result<(), Error> {
        match self.first.visit_tag(name) {
            Err(error) => Err(error),
            Ok(()) => self.second.visit_tag(name),
        }
    }

    fn visit_attribute(&mut self, name: &str, value: &str) -> std::result::Result<(), Error> {
        match self.first.visit_attribute(name, value) {
            Err(Error::UnexpectedAttribute(_)) => self.second.visit_attribute(name, value),
            r => r,
        }
    }

    fn visit_child(&mut self, name: &str, reader: &mut PeekingReader) -> std::result::Result<
        (),
        Error,
    > {
        let before: u128 = reader.remaining();
        match self.first.visit_child(name, reader) {
            Err(Error::UnexpectedChild(rejected)) => {
                proof {
                    A::child_is_consumed(old(self).model().0, name@, old(reader).pending());
                }
                if reader.remaining() == before {
                    assert(reader.pending() =~= old(reader).pending());
                    self.second.visit_child(name, reader)
                } else {
                    Err(Error::UnexpectedChild(rejected))
                }
            },
            r => r,
        }
    }

    fn visit_text(&mut self, text: &str) -> std::result::Result<(), Error> {
        match self.first.visit_text(text) {
            Err(Error::UnexpectedText) => self.second.visit_text(text),
            r => r,
        }
    }

    fn build(self) -> std::result::Result<(A::Output, B::Output), Error> {
        match self.first.build() {
            Err(error) => Err(error),
            Ok(first) => match self.second.build() {
                Err(error) => Err(error),
                Ok(second) => Ok((first, second)),
            },
        }
    }
}

/// Where the first candidate does not reject an attribute as unexpected, it
/// alone decides, and the second candidate is not touched.
pub proof fn first_claim_is_final<A: Visitor, B: Visitor>(
    m: (A::Model, B::Model),
    name: Seq<char>,
    value: Seq<char>,
)
    requires
        !rejects_attribute(A::attribute_spec(m.0, name, value).1),
    ensures
        Merged::<A, B>::attribute_spec(m, name, value).1 == A::attribute_spec(m.0, name, value).1,
        Merged::<A, B>::attribute_spec(m, name, value).0.1 == m.1,
{
}

/// Where the first candidate rejects an attribute as unexpected, the
/// rejection is not the outcome: the second candidate decides.
pub proof fn rejection_falls_through<A: Visitor, B: Visitor>(
    m: (A::Model, B::Model),
    name: Seq<char>,
    value: Seq<char>,
)
    requires
        rejects_attribute(A::attribute_spec(m.0, name, value).1),
    ensures
        Merged::<A, B>::attribute_spec(m, name, value).1 == B::attribute_spec(m.1, name, value).1,
{
}

/// A child goes to one candidate: where the first one does not reject it
/// untouched, the second one is not asked.
pub proof fn child_is_claimed_once<A: Visitor, B: Visitor>(
    m: (A::Model, B::Model),
    name: Seq<char>,
    pending: Seq<Token>,
)
    ensures
        ({
            let (first, rest) = A::child_spec(m.0, name, pending);
            let merged = Merged::<A, B>::child_spec(m, name, pending);
            if rejects_child(first.1) && rest.len() == pending.len() {
                merged.0.1 == B::child_spec(m.1, name, pending).0.1 && merged.1 == B::child_spec(
                    m.1,
                    name,
                    pending,
                ).1
            } else {
                merged.0.1 == first.1 && merged.0.0.1 == m.1 && merged.1 == rest
            }
        }),
{
}

/// A text goes to one candidate: to the first, unless it rejects the text
/// as unexpected, and then to the second.
pub proof fn text_is_claimed_once<A: Visitor, B: Visitor>(m: (A::Model, B::Model), text: Seq<char>)
    ensures
        ({
            let first = A::text_spec(m.0, text);
            let merged = Merged::<A, B>::text_spec(m, text);
            if rejects_text(first.1) {
                merged.1 == B::text_spec(m.1, text).1
            } else {
                merged.1 == first.1 && merged.0.1 == m.1
            }
        }),
{
}

/// A merged optional candidate is absent only where nothing was handed to
/// it. Once it was handed an attribute, a text or a child, the merged
/// visitor builds what the candidate's own visitor builds: the value, or
/// the error of the part that is missing, which fails the whole element.
pub proof fn merged_optional_is_strict<A: Visitor, T: FromXml>(
    m: (A::Model, (bool, <T::Visitor as Visitor>::Model)),
)
    requires
        A::build_spec(m.0) is Ok,
    ensures
        !m.1.0 ==> Merged::<A, OptionalVisitor<T>>::build_spec(m) == Ok::<
            (A::Value, Option<<T::Visitor as Visitor>::Value>),
            ErrorView,
        >((A::build_spec(m.0)->Ok_0, None)),
        m.1.0 ==> Merged::<A, OptionalVisitor<T>>::build_spec(m) == match <T::Visitor as Visitor>::build_spec(
            m.1.1,
        ) {
            Ok(inner) => Ok::<(A::Value, Option<<T::Visitor as Visitor>::Value>), ErrorView>(
                (A::build_spec(m.0)->Ok_0, Some(inner)),
            ),
            Err(error) => Err(error),
        },
{
}

} // verus!
