//! Percent-decoding, through the `percent-encoding` crate.

use vstd::prelude::*;

verus! {

/// What lossy percent-decoding makes of a text that holds at least one
/// `%`: a function of the characters alone.
pub uninterp spec fn percent_decoded(s: Seq<char>) -> Seq<char>;

/// Lossy percent-decoding. A text without `%` holds no escape sequence,
/// so it comes back unchanged.
pub open spec fn decoded(s: Seq<char>) -> Seq<char> {
    if s.contains('%') {
        percent_decoded(s)
    } else {
        s
    }
}

/// Relies on `percent_encoding::percent_decode_str` and its
/// `decode_utf8_lossy`: every `%XX` escape (two hexadecimal digits) is
/// decoded, all other bytes pass through unchanged, and invalid UTF-8 in
/// the decoded bytes is replaced lossily. A text without `%` therefore
/// comes back as it was.
#[verifier::external_body]
pub fn percent_decode_lossy(s: &str) -> (r: String)
    ensures
        r@ == decoded(s@),
        s@.contains('%') ==> r@ == percent_decoded(s@),
{
    percent_encoding::percent_decode_str(s).decode_utf8_lossy().into_owned()
}

} // verus!
