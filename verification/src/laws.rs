//! Round-trip laws: what classification makes of a specifier's own
//! canonical text.

use crate::builtins::is_builtin_name;
use crate::classify::spec_classify;
use crate::package::spec_split_package;
use crate::parts::{spec_parse_scheme, spec_split_path, spec_split_query};
use crate::scan::{find_path_end, find_slash, lemma_find_path_end, lemma_find_slash};
use crate::types::{ParseFlags, SpecifierErrorView, SpecifierType, SpecifierView, spec_to_text};
use vstd::prelude::*;

verus! {

/// The empty input fails with the empty-specifier error under every
/// context and every configuration.
pub proof fn lemma_empty_fails(ty: SpecifierType, flags: ParseFlags)
    ensures
        spec_classify(Seq::<char>::empty(), ty, flags) == Err::<
            (SpecifierView, Option<Seq<char>>),
            _,
        >(SpecifierErrorView::EmptySpecifier),
{
}

/// A text without `?` or `#` is all path: the splitter keeps it whole.
proof fn lemma_split_path_whole(p: Seq<char>)
    requires
        !p.contains('?'),
        !p.contains('#'),
    ensures
        spec_split_path(p) == (p, Seq::<char>::empty()),
        spec_split_query(Seq::<char>::empty()).0 is None,
{
    lemma_find_path_end(p, 0);
    if let Some(j) = find_path_end(p, 0) {
        assert(p.contains(p[j]));
    }
}

/// Splitting a package reference, printing the two parts back, and
/// splitting again reproduces the same module name and subpath.
pub proof fn lemma_split_package_roundtrip(s: Seq<char>, m: Seq<char>, p: Seq<char>)
    requires
        spec_split_package(s) == Ok::<_, ()>((m, p)),
    ensures
        spec_split_package(spec_to_text(SpecifierView::Package(m, p))) == Ok::<_, ()>((m, p)),
{
    let t = spec_to_text(SpecifierView::Package(m, p));
    lemma_find_slash(s, 0);
    if s.len() > 0 && s[0] == '@' {
        let i = find_slash(s, 0)->Some_0;
        lemma_find_slash(s, i + 1);
        match find_slash(s, i + 1) {
            Some(j) => {
                assert(m == s.take(j));
                assert(p == s.skip(j + 1));
                if p.len() == 0 {
                    assert(t == m);
                    assert(t.len() == j);
                    assert(t[0] == '@');
                    lemma_find_slash(t, 0);
                    assert(forall|k: int| 0 <= k < i ==> t[k] != '/');
                    assert(t[i] == '/');
                    assert(find_slash(t, 0) == Some(i));
                    lemma_find_slash(t, i + 1);
                    assert(forall|k: int| i + 1 <= k < j ==> t[k] != '/');
                    assert(find_slash(t, i + 1) is None);
                    assert(p =~= Seq::<char>::empty());
                } else {
                    assert(t =~= s);
                }
            },
            None => {
                assert(m == s);
                assert(p =~= Seq::<char>::empty());
                assert(t == s);
            },
        }
    } else {
        match find_slash(s, 0) {
            Some(i) => {
                assert(m == s.take(i));
                assert(p == s.skip(i + 1));
                if p.len() == 0 {
                    assert(t == m);
                    assert(t.len() == i);
                    if i == 0 {
                        assert(t =~= Seq::<char>::empty());
                        lemma_find_slash(t, 0);
                        assert(p =~= Seq::<char>::empty());
                    } else {
                        assert(t[0] == s[0]);
                        assert(s.len() > 0 && s[0] != '@');
                        lemma_find_slash(t, 0);
                        assert(forall|k: int| 0 <= k < i ==> t[k] != '/');
                        assert(find_slash(t, 0) is None);
                        assert(p =~= Seq::<char>::empty());
                    }
                } else {
                    assert(t =~= s);
                }
            },
            None => {
                assert(m == s);
                assert(p =~= Seq::<char>::empty());
                assert(t == s);
            },
        }
    }
}

/// A relative specifier round-trips: classifying its canonical text under
/// the context that produced it yields the same variant and no query.
///
/// The text must still look relative (it keeps its leading `.` and is not
/// a `./` prefix, which classification would strip again), and under the
/// ECMAScript-module grammar it must hold no `%`, `?` or `#`, which
/// decoding or splitting would interpret.
pub proof fn lemma_classify_roundtrip_relative(p: Seq<char>, ty: SpecifierType, flags: ParseFlags)
    requires
        ty != SpecifierType::Url,
        p.len() > 0,
        p[0] == '.',
        !(p.len() >= 2 && p[1] == '/'),
        ty == SpecifierType::Esm ==> !p.contains('%') && !p.contains('?') && !p.contains('#'),
    ensures
        spec_classify(spec_to_text(SpecifierView::Relative(p)), ty, flags) == Ok::<_,
            SpecifierErrorView,
        >((SpecifierView::Relative(p), None::<Seq<char>>)),
{
    if ty == SpecifierType::Esm {
        lemma_split_path_whole(p);
    }
}

/// An absolute specifier round-trips under the same conditions on its
/// text; the protocol-relative `//` reading exists only under the URL
/// context, which this law leaves out.
pub proof fn lemma_classify_roundtrip_absolute(p: Seq<char>, ty: SpecifierType, flags: ParseFlags)
    requires
        ty != SpecifierType::Url,
        p.len() > 0,
        p[0] == '/',
        ty == SpecifierType::Esm ==> !p.contains('%') && !p.contains('?') && !p.contains('#'),
    ensures
        spec_classify(spec_to_text(SpecifierView::Absolute(p)), ty, flags) == Ok::<_,
            SpecifierErrorView,
        >((SpecifierView::Absolute(p), None::<Seq<char>>)),
{
    if ty == SpecifierType::Esm {
        lemma_split_path_whole(p);
    }
}

/// A builtin specifier round-trips when its name is bare-shaped: it opens
/// with none of the path-like characters, and under the ECMAScript-module
/// grammar it holds no `:` (which would read as a scheme) and no `?` or
/// `#` (which would split off a query or fragment).
pub proof fn lemma_classify_roundtrip_builtin(n: Seq<char>, ty: SpecifierType, flags: ParseFlags)
    requires
        is_builtin_name(n),
        n.len() > 0,
        n[0] != '.',
        n[0] != '~',
        n[0] != '/',
        n[0] != '#',
        ty == SpecifierType::Cjs || (ty == SpecifierType::Esm && !n.contains(':') && !n.contains(
            '?',
        ) && !n.contains('#')),
    ensures
        spec_classify(spec_to_text(SpecifierView::Builtin(n)), ty, flags) == Ok::<_,
            SpecifierErrorView,
        >((SpecifierView::Builtin(n), None::<Seq<char>>)),
{
    if ty != SpecifierType::Cjs {
        crate::scan::lemma_find_scheme_end(n, 0);
        if let Some(j) = crate::scan::find_scheme_end(n, 0) {
            if n[j] == ':' {
                assert(n.contains(':'));
            }
        }
        assert(spec_parse_scheme(n) is None);
        lemma_split_path_whole(n);
    }
}

} // verus!
