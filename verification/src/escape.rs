//! Work on texts: the resolution of entity references, done by the
//! tokenizer's crate, and the comparison of two texts.

use quick_xml::Error as XmlError;
use vstd::prelude::*;
use vstd::string::StringSliceAdditionalSpecFns;
use vstd::utf8::{decode_utf8, encode_utf8, encode_utf8_decode_utf8};

verus! {

/// The text that `raw` stands for once its entity references (`&lt;`,
/// `&#10;`, ...) are resolved, or `None` where one of them is not
/// recognized or not terminated.
pub uninterp spec fn unescaped(raw: Seq<char>) -> Option<Seq<char>>;

/// Calls `quick_xml::escape::unescape`. The contract names its result: the
/// call succeeds exactly where [`unescaped`] is defined, and then returns
/// that text. A text without `&` holds no entity reference and is returned
/// as it is.
#[verifier::external_body]
pub(crate) fn unescape(raw: &str) -> (r: std::result::Result<String, XmlError>)
    ensures
        match r {
            Ok(text) => unescaped(raw@) == Some(text@) && (!raw@.contains('&') ==> text@ == raw@),
            Err(_) => unescaped(raw@) is None && raw@.contains('&'),
        },
{
    match quick_xml::escape::unescape(raw) {
        Ok(text) => Ok(text.into_owned()),
        Err(error) => Err(XmlError::from(error)),
    }
}

/// Whether two strings hold the same characters. Their bytes are compared:
/// two texts are the same exactly when their UTF-8 encodings are.
pub fn same_text(a: &str, b: &str) -> (r: bool)
    ensures
        r == (a@ == b@),
{
    let left = a.as_bytes();
    let right = b.as_bytes();
    proof {
        encode_utf8_decode_utf8(a@);
        encode_utf8_decode_utf8(b@);
    }
    if left.len() != right.len() {
        return false;
    }
    let mut i: usize = 0;
    while i < left.len()
        invariant
            0 <= i <= left.len(),
            left.len() == right.len(),
            left@ == encode_utf8(a@),
            right@ == encode_utf8(b@),
            decode_utf8(encode_utf8(a@)) == a@,
            decode_utf8(encode_utf8(b@)) == b@,
            forall|j: int| 0 <= j < i ==> left@[j] == right@[j],
        decreases left.len() - i,
    {
        if left[i] != right[i] {
            return false;
        }
        i = i + 1;
    }
    assert(left@ =~= right@);
    true
}

} // verus!
