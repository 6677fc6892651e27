//! Conversion of `file:` URLs into filesystem paths, through the `url`
//! crate.

use crate::types::SpecifierError;
use vstd::prelude::*;

verus! {

/// What the generic URL grammar makes of a text: `None` when it parses,
/// `Some(detail)` with the parser's failure detail when it does not. A
/// function of the characters alone.
pub uninterp spec fn url_parse_error(s: Seq<char>) -> Option<Seq<char>>;

/// The local filesystem path of a text that parses as a URL: `None` when
/// the URL cannot be converted (for example, it names a remote host),
/// `Some(path)` otherwise, with non-UTF-8 path bytes replaced lossily. A
/// function of the characters alone.
pub uninterp spec fn file_url_path(s: Seq<char>) -> Option<Seq<char>>;

/// Relies on `url::Url::parse` and `url::Url::to_file_path`: parsing is a
/// pure function of the input, conversion fails exactly when the URL has
/// no local path (a non-local host, or no path segments), and the path
/// text is the converted path's lossy text form.
#[verifier::external_body]
pub fn parse_file_url(s: &str) -> (r: Result<String, SpecifierError>)
    ensures
        match r {
            Ok(p) => url_parse_error(s@) is None && file_url_path(s@) == Some(p@),
            Err(e) => match e@ {
                crate::types::SpecifierErrorView::UrlError(d) => url_parse_error(s@) == Some(d),
                crate::types::SpecifierErrorView::InvalidFileUrl => url_parse_error(s@) is None
                    && file_url_path(s@) is None,
                _ => false,
            },
        },
{
    match url::Url::parse(s) {
        Ok(u) => match u.to_file_path() {
            Ok(p) => Ok(p.to_string_lossy().into_owned()),
            Err(_) => Err(SpecifierError::InvalidFileUrl),
        },
        Err(e) => Err(SpecifierError::UrlError(e.to_string())),
    }
}

} // verus!
