//! Splitting a bare module reference into a package name and a subpath.

use crate::scan::{find_slash, lemma_find_slash};
use crate::types::{Specifier, SpecifierError};
use vstd::prelude::*;

verus! {

/// The split of a bare reference into module name and subpath.
///
/// A scoped name (`@scope/name`) keeps its first `/`; the subpath begins
/// after the second. A scoped reference without any `/` has no name to
/// end the scope and is an error. An unscoped name ends at the first `/`;
/// without one, the whole reference is the name and the subpath is empty.
pub open spec fn spec_split_package(s: Seq<char>) -> Result<(Seq<char>, Seq<char>), ()> {
    if s.len() > 0 && s[0] == '@' {
        match find_slash(s, 0) {
            None => Err(()),
            Some(i) => match find_slash(s, i + 1) {
                Some(j) => Ok((s.take(j), s.skip(j + 1))),
                None => Ok((s, Seq::<char>::empty())),
            },
        }
    } else {
        match find_slash(s, 0) {
            Some(i) => Ok((s.take(i), s.skip(i + 1))),
            None => Ok((s, Seq::<char>::empty())),
        }
    }
}

/// Finds the first `/` of `input` at or after character `from`.
fn find_slash_exec(input: &str, from: usize) -> (r: Option<usize>)
    requires
        from <= input@.len(),
    ensures
        match r {
            Some(i) => find_slash(input@, from as int) == Some(i as int) && from <= i
                < input@.len(),
            None => find_slash(input@, from as int) is None,
        },
{
    let len: usize = input.unicode_len();
    let mut i: usize = from;
    while i < len
        invariant
            len == input@.len(),
            from <= i <= len,
            forall|j: int| from <= j < i ==> input@[j] != '/',
        decreases len - i,
    {
        if input.get_char(i) == '/' {
            proof {
                lemma_find_slash(input@, from as int);
                assert(find_slash(input@, from as int) == Some(i as int));
            }
            return Some(i);
        }
        i += 1;
    }
    proof {
        lemma_find_slash(input@, from as int);
    }
    None
}

/// Splits a bare module reference into its package name and subpath, both
/// views into the input.
pub fn parse_package_specifier<'a>(specifier: &'a str) -> (r: Result<
    (&'a str, &'a str),
    SpecifierError,
>)
    ensures
        match r {
            Ok((module, subpath)) => spec_split_package(specifier@) == Ok::<_, ()>(
                (module@, subpath@),
            ),
            Err(e) => spec_split_package(specifier@) is Err && e@
                == crate::types::SpecifierErrorView::InvalidPackageSpecifier,
        },
{
    let len: usize = specifier.unicode_len();
    let idx = find_slash_exec(specifier, 0);
    if len > 0 && specifier.get_char(0) == '@' {
        match idx {
            None => Err(SpecifierError::InvalidPackageSpecifier),
            Some(i) => {
                match find_slash_exec(specifier, i + 1) {
                    Some(j) => {
                        let module = specifier.substring_char(0, j);
                        let subpath = specifier.substring_char(j + 1, len);
                        proof {
                            assert(module@ =~= specifier@.take(j as int));
                            assert(subpath@ =~= specifier@.skip(j as int + 1));
                        }
                        Ok((module, subpath))
                    },
                    None => {
                        proof {
                            assert(""@ =~= Seq::<char>::empty()) by {
                                reveal_strlit("");
                            }
                        }
                        Ok((specifier, ""))
                    },
                }
            },
        }
    } else {
        match idx {
            Some(i) => {
                let module = specifier.substring_char(0, i);
                let subpath = specifier.substring_char(i + 1, len);
                proof {
                    assert(module@ =~= specifier@.take(i as int));
                    assert(subpath@ =~= specifier@.skip(i as int + 1));
                }
                Ok((module, subpath))
            },
            None => {
                proof {
                    assert(""@ =~= Seq::<char>::empty()) by {
                        reveal_strlit("");
                    }
                }
                Ok((specifier, ""))
            },
        }
    }
}

/// Splits a bare reference and wraps the parts as a package specifier.
pub fn parse_package(specifier: &str) -> (r: Result<Specifier, SpecifierError>)
    ensures
        match r {
            Ok(sp) => spec_split_package(specifier@) matches Ok((m, s)) && sp@
                == crate::types::SpecifierView::Package(m, s),
            Err(e) => spec_split_package(specifier@) is Err && e@
                == crate::types::SpecifierErrorView::InvalidPackageSpecifier,
        },
{
    match parse_package_specifier(specifier) {
        Ok((module, subpath)) => Ok(
            Specifier::Package(String::from_str(module), String::from_str(subpath)),
        ),
        Err(e) => Err(e),
    }
}

} // verus!
