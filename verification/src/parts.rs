//! The scheme grammar and the path/query splitters.

use crate::chars::{ascii_alpha, is_ascii_alpha, is_scheme_char, lower_seq, lower_str, scheme_char};
use crate::scan::{
    find_fragment, find_path_end, find_scheme_end, lemma_find_fragment, lemma_find_path_end,
    lemma_find_scheme_end,
};
use vstd::prelude::*;

verus! {

/// The scheme grammar: an ASCII letter, then letters, digits, `+`, `-` or
/// `.`, ended by `:`. On success, the lower-cased scheme and the text
/// after the colon; any other character, or running out of input before a
/// colon, fails.
pub open spec fn spec_parse_scheme(s: Seq<char>) -> Option<(Seq<char>, Seq<char>)> {
    if s.len() > 0 && is_ascii_alpha(s[0]) {
        match find_scheme_end(s, 0) {
            Some(j) => if s[j] == ':' {
                Some((lower_seq(s.take(j)), s.skip(j + 1)))
            } else {
                None
            },
            None => None,
        }
    } else {
        None
    }
}

/// The prefix before the first `?` or `#`, and the remainder from that
/// character on (empty when there is none).
pub open spec fn spec_split_path(s: Seq<char>) -> (Seq<char>, Seq<char>) {
    match find_path_end(s, 0) {
        Some(j) => (s.take(j), s.skip(j)),
        None => (s, Seq::<char>::empty()),
    }
}

/// If the text starts with `?`: the query up to (not including) the first
/// `#`, keeping the leading `?`, and the remainder from `#` on. Otherwise
/// no query, and the text unchanged.
pub open spec fn spec_split_query(s: Seq<char>) -> (Option<Seq<char>>, Seq<char>) {
    if s.len() > 0 && s[0] == '?' {
        match find_fragment(s, 0) {
            Some(j) => (Some(s.take(j)), s.skip(j)),
            None => (Some(s), Seq::<char>::empty()),
        }
    } else {
        (None, s)
    }
}

/// Recognizes an optional `scheme:` prefix.
///
/// Lower-casing allocates; the remainder is a view into the input.
pub fn parse_scheme<'a>(input: &'a str) -> (r: Result<(String, &'a str), ()>)
    ensures
        match r {
            Ok((scheme, rest)) => spec_parse_scheme(input@) == Some((scheme@, rest@)),
            Err(_) => spec_parse_scheme(input@) is None,
        },
{
    let len: usize = input.unicode_len();
    if len == 0 {
        return Err(());
    }
    if !ascii_alpha(input.get_char(0)) {
        return Err(());
    }
    let mut i: usize = 0;
    while i < len
        invariant
            len == input@.len(),
            0 <= i <= len,
            is_ascii_alpha(input@[0]),
            forall|j: int| 0 <= j < i ==> is_scheme_char(input@[j]),
        decreases len - i,
    {
        let c = input.get_char(i);
        if c == ':' {
            proof {
                lemma_find_scheme_end(input@, 0);
                assert(find_scheme_end(input@, 0) == Some(i as int));
            }
            let scheme = lower_str(input.substring_char(0, i));
            let rest = input.substring_char(i + 1, len);
            proof {
                assert(rest@ =~= input@.skip(i as int + 1));
                assert(input@.subrange(0, i as int) =~= input@.take(i as int));
            }
            return Ok((scheme, rest));
        }
        if !scheme_char(c) {
            proof {
                lemma_find_scheme_end(input@, 0);
                assert(find_scheme_end(input@, 0) == Some(i as int));
            }
            return Err(());
        }
        i += 1;
    }
    proof {
        lemma_find_scheme_end(input@, 0);
    }
    Err(())
}

/// Splits off the path: everything before the first `?` or `#`.
pub fn parse_path<'a>(input: &'a str) -> (r: (&'a str, &'a str))
    ensures
        (r.0@, r.1@) == spec_split_path(input@),
{
    let len: usize = input.unicode_len();
    let mut i: usize = 0;
    while i < len
        invariant
            len == input@.len(),
            0 <= i <= len,
            forall|j: int| 0 <= j < i ==> !(input@[j] == '?' || input@[j] == '#'),
        decreases len - i,
    {
        let c = input.get_char(i);
        if c == '?' || c == '#' {
            proof {
                lemma_find_path_end(input@, 0);
                assert(find_path_end(input@, 0) == Some(i as int));
            }
            let path = input.substring_char(0, i);
            let rest = input.substring_char(i, len);
            proof {
                assert(path@ =~= input@.take(i as int));
                assert(rest@ =~= input@.skip(i as int));
            }
            return (path, rest);
        }
        i += 1;
    }
    proof {
        lemma_find_path_end(input@, 0);
        assert(""@ =~= Seq::<char>::empty()) by {
            reveal_strlit("");
        }
    }
    (input, "")
}

/// Splits off a leading query segment, ended by `#` or the end of input.
pub fn parse_query<'a>(input: &'a str) -> (r: (Option<&'a str>, &'a str))
    ensures
        match r.0 {
            Some(q) => spec_split_query(input@) == (Some(q@), r.1@),
            None => spec_split_query(input@) == (None::<Seq<char>>, r.1@),
        },
{
    let len: usize = input.unicode_len();
    if len == 0 || input.get_char(0) != '?' {
        return (None, input);
    }
    let mut i: usize = 0;
    while i < len
        invariant
            len == input@.len(),
            0 <= i <= len,
            len > 0,
            input@[0] == '?',
            forall|j: int| 0 <= j < i ==> input@[j] != '#',
        decreases len - i,
    {
        let c = input.get_char(i);
        if c == '#' {
            proof {
                lemma_find_fragment(input@, 0);
                assert(find_fragment(input@, 0) == Some(i as int));
            }
            let q = input.substring_char(0, i);
            let rest = input.substring_char(i, len);
            proof {
                assert(q@ =~= input@.take(i as int));
                assert(rest@ =~= input@.skip(i as int));
            }
            return (Some(q), rest);
        }
        i += 1;
    }
    proof {
        lemma_find_fragment(input@, 0);
        assert(""@ =~= Seq::<char>::empty()) by {
            reveal_strlit("");
        }
    }
    (Some(input), "")
}

} // verus!
