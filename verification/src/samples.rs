//! Element types of sample documents, each put together from the field
//! visitors and the adapters of this library.

pub mod discard;
pub mod flatten;
pub mod flatten_option;
pub mod from;
pub mod labels;
pub mod newtype;
pub mod newtype_custom;
pub mod newtype_int;
pub mod report;
pub mod report_option;
pub mod report_vec;
pub mod store_any;
pub mod untyped_child;
pub mod xml_vec;
pub mod xml_vec_derive;
pub mod zst;
