//! Text helpers: joining a message, prefix tests, and bytes read as text.

use vstd::prelude::*;
use vstd::utf8::{decode_utf8, valid_utf8};

verus! {

/// What `String::from_utf8_lossy` makes of a byte string.
pub uninterp spec fn lossy_text(bytes: Seq<u8>) -> Seq<char>;

/// `String::from_utf8_lossy`, made an owned string. Trusted: the result is
/// the text that `lossy_text` names, and the decoded text itself where the
/// bytes are valid UTF-8.
#[verifier::external_body]
pub(crate) fn text_of_bytes(bytes: &[u8]) -> (r: String)
    ensures
        r@ == lossy_text(bytes@),
        valid_utf8(bytes@) ==> r@ == decode_utf8(bytes@),
{
    String::from_utf8_lossy(bytes).into_owned()
}

/// `str::starts_with` with a string pattern. Trusted: it tells whether the
/// pattern is a literal prefix of the text.
#[verifier::external_body]
pub(crate) fn starts_with(text: &str, prefix: &str) -> (r: bool)
    ensures
        r == prefix@.is_prefix_of(text@),
{
    text.starts_with(prefix)
}

/// `lead` followed by `cause`.
pub fn message(lead: &str, cause: &str) -> (r: String)
    ensures
        r@ == lead@ + cause@,
{
    String::from_str(lead).concat(cause)
}

} // verus!
