//! Finding the first character of a sequence that satisfies a predicate.
//!
//! Every grammar in this crate is driven by "scan until the first `:`,
//! `/`, `?` or `#`"-style searches; this module gives them one shared
//! specification, together with the named searches the grammars use.

use crate::chars::is_scheme_char;
use vstd::prelude::*;

verus! {

/// The least index `j >= i` with `p(s[j])`, if any.
pub open spec fn find_from(s: Seq<char>, i: int, p: spec_fn(char) -> bool) -> Option<int>
    decreases s.len() - i,
    when 0 <= i <= s.len()
{
    if i >= s.len() {
        None
    } else if p(s[i]) {
        Some(i)
    } else {
        find_from(s, i + 1, p)
    }
}

/// What a successful or failed search says of the scanned characters.
pub proof fn lemma_find_from_props(s: Seq<char>, i: int, p: spec_fn(char) -> bool)
    requires
        0 <= i <= s.len(),
    ensures
        match find_from(s, i, p) {
            Some(j) => i <= j < s.len() && p(s[j]) && (forall|k: int| i <= k < j ==> !p(s[k])),
            None => forall|k: int| i <= k < s.len() ==> !p(s[k]),
        },
    decreases s.len() - i,
{
    if i < s.len() && !p(s[i]) {
        lemma_find_from_props(s, i + 1, p);
    }
}

// Each named search below comes with one lemma instantiating the
// properties above; both the "found" and the "not found" directions
// follow from it at the call sites.

/// The first `/` at or after position `i`.
pub open spec fn find_slash(s: Seq<char>, i: int) -> Option<int> {
    find_from(s, i, |c: char| c == '/')
}

pub proof fn lemma_find_slash(s: Seq<char>, i: int)
    requires
        0 <= i <= s.len(),
    ensures
        match find_slash(s, i) {
            Some(j) => i <= j < s.len() && s[j] == '/' && (forall|k: int|
                i <= k < j ==> s[k] != '/'),
            None => forall|k: int| i <= k < s.len() ==> s[k] != '/',
        },
{
    lemma_find_from_props(s, i, |c: char| c == '/');
}

/// The first `?` or `#` at or after position `i`: where a path ends.
pub open spec fn find_path_end(s: Seq<char>, i: int) -> Option<int> {
    find_from(s, i, |c: char| c == '?' || c == '#')
}

pub proof fn lemma_find_path_end(s: Seq<char>, i: int)
    requires
        0 <= i <= s.len(),
    ensures
        match find_path_end(s, i) {
            Some(j) => i <= j < s.len() && (s[j] == '?' || s[j] == '#') && (forall|k: int|
                i <= k < j ==> !(s[k] == '?' || s[k] == '#')),
            None => forall|k: int| i <= k < s.len() ==> !(s[k] == '?' || s[k] == '#'),
        },
{
    lemma_find_from_props(s, i, |c: char| c == '?' || c == '#');
}

/// The first `#` at or after position `i`: where a fragment begins.
pub open spec fn find_fragment(s: Seq<char>, i: int) -> Option<int> {
    find_from(s, i, |c: char| c == '#')
}

pub proof fn lemma_find_fragment(s: Seq<char>, i: int)
    requires
        0 <= i <= s.len(),
    ensures
        match find_fragment(s, i) {
            Some(j) => i <= j < s.len() && s[j] == '#' && (forall|k: int|
                i <= k < j ==> s[k] != '#'),
            None => forall|k: int| i <= k < s.len() ==> s[k] != '#',
        },
{
    lemma_find_from_props(s, i, |c: char| c == '#');
}

/// The first character that cannot continue a scheme.
pub open spec fn find_scheme_end(s: Seq<char>, i: int) -> Option<int> {
    find_from(s, i, |c: char| !is_scheme_char(c))
}

pub proof fn lemma_find_scheme_end(s: Seq<char>, i: int)
    requires
        0 <= i <= s.len(),
    ensures
        match find_scheme_end(s, i) {
            Some(j) => i <= j < s.len() && !is_scheme_char(s[j]) && (forall|k: int|
                i <= k < j ==> is_scheme_char(s[k])),
            None => forall|k: int| i <= k < s.len() ==> is_scheme_char(s[k]),
        },
{
    lemma_find_from_props(s, i, |c: char| !is_scheme_char(c));
}

} // verus!
