//! The names of the tags, attributes and children of the sample element types.

use crate::fields::Label;
use vstd::prelude::*;

verus! {

/// The tag name `report`.
pub struct ReportTag {}

impl Label for ReportTag {
    open spec fn text() -> Seq<char> {
        "report"@
    }

    fn name() -> &'static str {
        "report"
    }
}

/// The name `data`.
pub struct DataName {}

impl Label for DataName {
    open spec fn text() -> Seq<char> {
        "data"@
    }

    fn name() -> &'static str {
        "data"
    }
}

/// The name `id`.
pub struct IdName {}

impl Label for IdName {
    open spec fn text() -> Seq<char> {
        "id"@
    }

    fn name() -> &'static str {
        "id"
    }
}

/// The name `status`.
pub struct StatusName {}

impl Label for StatusName {
    open spec fn text() -> Seq<char> {
        "status"@
    }

    fn name() -> &'static str {
        "status"
    }
}

/// The name `status_text`.
pub struct StatusTextName {}

impl Label for StatusTextName {
    open spec fn text() -> Seq<char> {
        "status_text"@
    }

    fn name() -> &'static str {
        "status_text"
    }
}

/// The name `ids`.
pub struct IdsName {}

impl Label for IdsName {
    open spec fn text() -> Seq<char> {
        "ids"@
    }

    fn name() -> &'static str {
        "ids"
    }
}

/// The name `empty`.
pub struct EmptyName {}

impl Label for EmptyName {
    open spec fn text() -> Seq<char> {
        "empty"@
    }

    fn name() -> &'static str {
        "empty"
    }
}

/// The name `required`.
pub struct RequiredName {}

impl Label for RequiredName {
    open spec fn text() -> Seq<char> {
        "required"@
    }

    fn name() -> &'static str {
        "required"
    }
}

/// The name `useless`.
pub struct UselessName {}

impl Label for UselessName {
    open spec fn text() -> Seq<char> {
        "useless"@
    }

    fn name() -> &'static str {
        "useless"
    }
}

} // verus!
