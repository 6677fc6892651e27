//! The specifier classifier: the one entry point callers invoke.

use crate::builtins::{is_builtin, is_builtin_name};
use crate::chars::str_eq;
use crate::decode::{decoded, percent_decode_lossy};
use crate::file_url::{file_url_path, parse_file_url, url_parse_error};
use crate::package::{parse_package, spec_split_package};
use crate::parts::{
    parse_path, parse_query, parse_scheme, spec_parse_scheme, spec_split_path, spec_split_query,
};
use crate::types::{
    ParseFlags, Specifier, SpecifierError, SpecifierErrorView, SpecifierType, SpecifierView,
};
use vstd::prelude::*;

verus! {

/// The decode-path step under ECMAScript-module and URL grammars: the
/// text up to the first `?` or `#` is the path, percent-decoded, and a
/// leading query segment of the remainder is kept. Under the CommonJS
/// grammar the text is the path verbatim, and there is never a query.
pub open spec fn spec_decode_path(s: Seq<char>, ty: SpecifierType) -> (Seq<char>, Option<
    Seq<char>,
>) {
    if ty == SpecifierType::Cjs {
        (s, None)
    } else {
        let path = spec_split_path(s).0;
        let rest = spec_split_path(s).1;
        (decoded(path), spec_split_query(rest).0)
    }
}

/// A bare specifier under the CommonJS grammar: a builtin name verbatim,
/// or a package split on the raw text. No decoding and no query, ever.
pub open spec fn spec_classify_bare_cjs(s: Seq<char>) -> Result<
    (SpecifierView, Option<Seq<char>>),
    SpecifierErrorView,
> {
    if is_builtin_name(s) {
        Ok((SpecifierView::Builtin(s), None))
    } else {
        match spec_split_package(s) {
            Ok((m, sub)) => Ok((SpecifierView::Package(m, sub), None)),
            Err(_) => Err(SpecifierErrorView::InvalidPackageSpecifier),
        }
    }
}

/// A bare specifier under the ECMAScript-module and URL grammars.
///
/// With a scheme: `npm:` (only when enabled) resolves builtins first and
/// otherwise splits the decoded path as a package, keeping the query;
/// `node:` names a builtin on the raw path, discarding any query;
/// `file:` hands the whole text to the generic URL grammar and yields an
/// absolute path; every other scheme is an opaque URL kept verbatim.
/// Without one, ECMAScript-module text is a builtin or a package, while
/// URL text is a relative path — markup references name local files, not
/// installed packages.
pub open spec fn spec_classify_bare_esm_url(
    s: Seq<char>,
    ty: SpecifierType,
    flags: ParseFlags,
) -> Result<(SpecifierView, Option<Seq<char>>), SpecifierErrorView> {
    match spec_parse_scheme(s) {
        Some((scheme, rest)) => {
            let path = spec_split_path(rest).0;
            let after = spec_split_path(rest).1;
            let query = spec_split_query(after).0;
            if scheme == "npm"@ && flags.npm_scheme {
                if is_builtin_name(path) {
                    Ok((SpecifierView::Builtin(path), None))
                } else {
                    match spec_split_package(decoded(path)) {
                        Ok((m, sub)) => Ok((SpecifierView::Package(m, sub), query)),
                        Err(_) => Err(SpecifierErrorView::InvalidPackageSpecifier),
                    }
                }
            } else if scheme == "node"@ {
                Ok((SpecifierView::Builtin(path), None))
            } else if scheme == "file"@ {
                match url_parse_error(s) {
                    Some(d) => Err(SpecifierErrorView::UrlError(d)),
                    None => match file_url_path(s) {
                        Some(p) => Ok((SpecifierView::Absolute(p), query)),
                        None => Err(SpecifierErrorView::InvalidFileUrl),
                    },
                }
            } else {
                Ok((SpecifierView::Url(s), None))
            }
        },
        None => {
            if ty == SpecifierType::Esm {
                let path = spec_split_path(s).0;
                let after = spec_split_path(s).1;
                if is_builtin_name(path) {
                    Ok((SpecifierView::Builtin(path), None))
                } else {
                    let query = spec_split_query(after).0;
                    match spec_split_package(decoded(path)) {
                        Ok((m, sub)) => Ok((SpecifierView::Package(m, sub), query)),
                        Err(_) => Err(SpecifierErrorView::InvalidPackageSpecifier),
                    }
                }
            } else {
                let pq = spec_decode_path(s, ty);
                Ok((SpecifierView::Relative(pq.0), pq.1))
            }
        },
    }
}

/// The classification of a whole input: one well-formed specifier with an
/// optional query, or one documented error — for every input.
pub open spec fn spec_classify(s: Seq<char>, ty: SpecifierType, flags: ParseFlags) -> Result<
    (SpecifierView, Option<Seq<char>>),
    SpecifierErrorView,
> {
    if s.len() == 0 {
        Err(SpecifierErrorView::EmptySpecifier)
    } else if s[0] == '.' {
        let t = if s.len() >= 2 && s[1] == '/' {
            s.skip(2)
        } else {
            s
        };
        let pq = spec_decode_path(t, ty);
        Ok((SpecifierView::Relative(pq.0), pq.1))
    } else if s[0] == '~' {
        let t1 = s.skip(1);
        let t = if t1.len() > 0 && t1[0] == '/' {
            t1.skip(1)
        } else {
            t1
        };
        let pq = spec_decode_path(t, ty);
        Ok((SpecifierView::Tilde(pq.0), pq.1))
    } else if s[0] == '/' {
        if s.len() >= 2 && s[1] == '/' && ty == SpecifierType::Url {
            Ok((SpecifierView::Url(s), None))
        } else {
            let pq = spec_decode_path(s, ty);
            Ok((SpecifierView::Absolute(pq.0), pq.1))
        }
    } else if s[0] == '#' {
        Ok((SpecifierView::Hash(s.skip(1)), None))
    } else if ty == SpecifierType::Cjs {
        spec_classify_bare_cjs(s)
    } else {
        spec_classify_bare_esm_url(s, ty, flags)
    }
}

/// Splits a path from its query and percent-decodes it, as the grammar of
/// the given context asks.
pub fn decode_path(specifier: &str, specifier_type: SpecifierType) -> (r: (String, Option<String>))
    ensures
        r.0@ == spec_decode_path(specifier@, specifier_type).0,
        r.1.deep_view() == spec_decode_path(specifier@, specifier_type).1,
{
    match specifier_type {
        SpecifierType::Cjs => (String::from_str(specifier), None),
        _ => {
            let (path, rest) = parse_path(specifier);
            let (query, _) = parse_query(rest);
            let dec = percent_decode_lossy(path);
            let q = match query {
                Some(qs) => Some(String::from_str(qs)),
                None => None,
            };
            (dec, q)
        },
    }
}

/// Turns a borrowed query segment into an owned one.
fn own_query(query: Option<&str>) -> (r: Option<String>)
    ensures
        r.deep_view() == match query {
            Some(q) => Some(q@),
            None => None::<Seq<char>>,
        },
{
    match query {
        Some(q) => Some(String::from_str(q)),
        None => None,
    }
}

impl Specifier {
    /// Classifies an input string under the grammar of the given context.
    ///
    /// Every non-empty input yields exactly one classified specifier with
    /// an optional query, or exactly one documented error; the empty
    /// input always fails.
    pub fn parse(specifier: &str, specifier_type: SpecifierType, flags: ParseFlags) -> (r: Result<
        (Specifier, Option<String>),
        SpecifierError,
    >)
        ensures
            ({
                let m = spec_classify(specifier@, specifier_type, flags);
                match r {
                    Ok((sp, q)) => m matches Ok(mv) && sp@ == mv.0 && q.deep_view() == mv.1,
                    Err(e) => m matches Err(ev) && e@ == ev,
                }
            }),
    {
        let len: usize = specifier.unicode_len();
        if len == 0 {
            return Err(SpecifierError::EmptySpecifier);
        }
        let c0 = specifier.get_char(0);
        if c0 == '.' {
            let rest = if len >= 2 && specifier.get_char(1) == '/' {
                let t = specifier.substring_char(2, len);
                proof {
                    assert(t@ =~= specifier@.skip(2));
                }
                t
            } else {
                specifier
            };
            let (path, query) = decode_path(rest, specifier_type);
            Ok((Specifier::Relative(path), query))
        } else if c0 == '~' {
            let start: usize = if len >= 2 && specifier.get_char(1) == '/' {
                2
            } else {
                1
            };
            let rest = specifier.substring_char(start, len);
            proof {
                assert(rest@ =~= specifier@.skip(start as int));
                if specifier@.skip(1).len() > 0 && specifier@.skip(1)[0] == '/' {
                    assert(start == 2);
                    assert(specifier@.skip(1).skip(1) =~= specifier@.skip(2));
                } else {
                    assert(start == 1);
                }
            }
            let (path, query) = decode_path(rest, specifier_type);
            Ok((Specifier::Tilde(path), query))
        } else if c0 == '/' {
            let protocol_relative = len >= 2 && specifier.get_char(1) == '/' && matches!(
                specifier_type,
                SpecifierType::Url,
            );
            if protocol_relative {
                Ok((Specifier::Url(String::from_str(specifier)), None))
            } else {
                let (path, query) = decode_path(specifier, specifier_type);
                Ok((Specifier::Absolute(path), query))
            }
        } else if c0 == '#' {
            let fragment = specifier.substring_char(1, len);
            proof {
                assert(fragment@ =~= specifier@.skip(1));
            }
            Ok((Specifier::Hash(String::from_str(fragment)), None))
        } else {
            match specifier_type {
                SpecifierType::Cjs => {
                    if is_builtin(specifier) {
                        Ok((Specifier::Builtin(String::from_str(specifier)), None))
                    } else {
                        match parse_package(specifier) {
                            Ok(p) => Ok((p, None)),
                            Err(e) => Err(e),
                        }
                    }
                },
                _ => Self::parse_bare(specifier, specifier_type, flags),
            }
        }
    }

    /// A bare specifier under the ECMAScript-module or URL grammar.
    fn parse_bare(specifier: &str, specifier_type: SpecifierType, flags: ParseFlags) -> (r: Result<
        (Specifier, Option<String>),
        SpecifierError,
    >)
        requires
            specifier_type != SpecifierType::Cjs,
        ensures
            ({
                let m = spec_classify_bare_esm_url(specifier@, specifier_type, flags);
                match r {
                    Ok((sp, q)) => m matches Ok(mv) && sp@ == mv.0 && q.deep_view() == mv.1,
                    Err(e) => m matches Err(ev) && e@ == ev,
                }
            }),
    {
        match parse_scheme(specifier) {
            Ok((scheme, rest)) => {
                let (path, after) = parse_path(rest);
                let (query, _) = parse_query(after);
                if flags.npm_scheme && str_eq(scheme.as_str(), "npm") {
                    if is_builtin(path) {
                        Ok((Specifier::Builtin(String::from_str(path)), None))
                    } else {
                        let dec = percent_decode_lossy(path);
                        match parse_package(dec.as_str()) {
                            Ok(p) => Ok((p, own_query(query))),
                            Err(e) => Err(e),
                        }
                    }
                } else if str_eq(scheme.as_str(), "node") {
                    // The platform's own scheme neither percent-decodes
                    // nor supports query parameters: the raw path is the
                    // builtin name and any query is discarded.
                    Ok((Specifier::Builtin(String::from_str(path)), None))
                } else if str_eq(scheme.as_str(), "file") {
                    // Fully parsing file URLs is left to the generic URL
                    // grammar, on the entire original text.
                    match parse_file_url(specifier) {
                        Ok(p) => Ok((Specifier::Absolute(p), own_query(query))),
                        Err(e) => Err(e),
                    }
                } else {
                    // The scheme's own grammar owns its query semantics:
                    // the whole text stays verbatim.
                    Ok((Specifier::Url(String::from_str(specifier)), None))
                }
            },
            Err(_) => {
                match specifier_type {
                    SpecifierType::Esm => {
                        let (path, after) = parse_path(specifier);
                        if is_builtin(path) {
                            return Ok((Specifier::Builtin(String::from_str(path)), None));
                        }
                        let (query, _) = parse_query(after);
                        let dec = percent_decode_lossy(path);
                        match parse_package(dec.as_str()) {
                            Ok(p) => Ok((p, own_query(query))),
                            Err(e) => Err(e),
                        }
                    },
                    _ => {
                        let (path, query) = decode_path(specifier, specifier_type);
                        Ok((Specifier::Relative(path), query))
                    },
                }
            },
        }
    }
}

} // verus!
