//! The data model: classified specifiers, interpretation contexts,
//! configuration flags, and the error taxonomy.

use vstd::prelude::*;

verus! {

/// Which grammar the classifier applies: ECMAScript module imports,
/// CommonJS requires, or generic URL references.
#[derive(PartialEq, Eq, Clone, Copy, Debug, Structural)]
pub enum SpecifierType {
    Esm,
    Cjs,
    Url,
}

/// Per-call configuration, passed explicitly so that classification stays
/// a pure function of its arguments.
#[derive(PartialEq, Eq, Clone, Copy, Debug, Structural)]
pub struct ParseFlags {
    /// Recognize the `npm:` scheme shorthand for package references.
    pub npm_scheme: bool,
    /// Leave CommonJS bare text that looks like a host absolute path to the
    /// package splitter instead of returning it as an absolute path. The
    /// fast path it disables exists only on hosts whose absolute paths use
    /// drive letters and backslashes; this library targets `/`-separated
    /// hosts, where bare text never takes it.
    pub absolute_specifiers: bool,
}

impl ParseFlags {
    /// The default configuration: every option off.
    pub fn empty() -> (r: ParseFlags)
        ensures
            !r.npm_scheme,
            !r.absolute_specifiers,
    {
        ParseFlags { npm_scheme: false, absolute_specifiers: false }
    }
}

/// The mathematical form of a classified specifier: each payload as a
/// sequence of characters.
#[verifier::ext_equal]
pub enum SpecifierView {
    Relative(Seq<char>),
    Absolute(Seq<char>),
    Tilde(Seq<char>),
    Hash(Seq<char>),
    Package(Seq<char>, Seq<char>),
    Builtin(Seq<char>),
    Url(Seq<char>),
}

/// The mathematical form of a classification error.
#[verifier::ext_equal]
pub enum SpecifierErrorView {
    EmptySpecifier,
    InvalidPackageSpecifier,
    UrlError(Seq<char>),
    InvalidFileUrl,
}

/// A classified specifier. Immutable once produced; structural equality
/// only.
#[derive(Eq, Hash, Clone, Debug)]
pub enum Specifier {
    /// A path relative to the referencing file, without a leading `./`.
    Relative(String),
    /// A filesystem-absolute path.
    Absolute(String),
    /// A path relative to the project root, without the leading `~` or
    /// separator.
    Tilde(String),
    /// An in-document fragment reference, without the leading `#`.
    Hash(String),
    /// An installed package: module name and subpath. The subpath is empty
    /// when absent and never starts with `/`.
    Package(String, String),
    /// A platform builtin module name.
    Builtin(String),
    /// An opaque URL, stored verbatim.
    Url(String),
}

impl View for Specifier {
    type V = SpecifierView;

    open spec fn view(&self) -> SpecifierView {
        match self {
            Specifier::Relative(p) => SpecifierView::Relative(p@),
            Specifier::Absolute(p) => SpecifierView::Absolute(p@),
            Specifier::Tilde(p) => SpecifierView::Tilde(p@),
            Specifier::Hash(f) => SpecifierView::Hash(f@),
            Specifier::Package(m, s) => SpecifierView::Package(m@, s@),
            Specifier::Builtin(n) => SpecifierView::Builtin(n@),
            Specifier::Url(u) => SpecifierView::Url(u@),
        }
    }
}

impl PartialEq for Specifier {
    fn eq(&self, other: &Specifier) -> (r: bool) {
        match (self, other) {
            (Specifier::Relative(a), Specifier::Relative(b)) => *a == *b,
            (Specifier::Absolute(a), Specifier::Absolute(b)) => *a == *b,
            (Specifier::Tilde(a), Specifier::Tilde(b)) => *a == *b,
            (Specifier::Hash(a), Specifier::Hash(b)) => *a == *b,
            (Specifier::Package(a, b), Specifier::Package(c, d)) => *a == *c && *b == *d,
            (Specifier::Builtin(a), Specifier::Builtin(b)) => *a == *b,
            (Specifier::Url(a), Specifier::Url(b)) => *a == *b,
            _ => false,
        }
    }
}

impl vstd::std_specs::cmp::PartialEqSpecImpl for Specifier {
    open spec fn obeys_eq_spec() -> bool {
        true
    }

    open spec fn eq_spec(&self, other: &Specifier) -> bool {
        self@ == other@
    }
}

/// The closed error taxonomy of classification.
#[derive(Eq, Clone, Debug)]
pub enum SpecifierError {
    /// The input had zero length.
    EmptySpecifier,
    /// A scoped (`@...`) bare specifier has no `/` to terminate its scope.
    InvalidPackageSpecifier,
    /// The generic URL grammar rejected the input; carries the underlying
    /// parser's failure detail.
    UrlError(String),
    /// A syntactically valid `file:` URL cannot be converted into a local
    /// filesystem path (for example, it names a remote host).
    InvalidFileUrl,
}

impl View for SpecifierError {
    type V = SpecifierErrorView;

    open spec fn view(&self) -> SpecifierErrorView {
        match self {
            SpecifierError::EmptySpecifier => SpecifierErrorView::EmptySpecifier,
            SpecifierError::InvalidPackageSpecifier => SpecifierErrorView::InvalidPackageSpecifier,
            SpecifierError::UrlError(d) => SpecifierErrorView::UrlError(d@),
            SpecifierError::InvalidFileUrl => SpecifierErrorView::InvalidFileUrl,
        }
    }
}

impl PartialEq for SpecifierError {
    fn eq(&self, other: &SpecifierError) -> (r: bool) {
        match (self, other) {
            (SpecifierError::EmptySpecifier, SpecifierError::EmptySpecifier) => true,
            (SpecifierError::InvalidPackageSpecifier, SpecifierError::InvalidPackageSpecifier) => true,
            (SpecifierError::UrlError(a), SpecifierError::UrlError(b)) => *a == *b,
            (SpecifierError::InvalidFileUrl, SpecifierError::InvalidFileUrl) => true,
            _ => false,
        }
    }
}

impl vstd::std_specs::cmp::PartialEqSpecImpl for SpecifierError {
    open spec fn obeys_eq_spec() -> bool {
        true
    }

    open spec fn eq_spec(&self, other: &SpecifierError) -> bool {
        self@ == other@
    }
}

/// The canonical text of a classified specifier: path, fragment, name and
/// URL payloads verbatim; a package as `module` alone when the subpath is
/// empty, else `module`, `/`, `subpath`.
pub open spec fn spec_to_text(v: SpecifierView) -> Seq<char> {
    match v {
        SpecifierView::Relative(p) => p,
        SpecifierView::Absolute(p) => p,
        SpecifierView::Tilde(p) => p,
        SpecifierView::Hash(f) => f,
        SpecifierView::Package(m, s) => if s.len() == 0 {
            m
        } else {
            m + seq!['/'] + s
        },
        SpecifierView::Builtin(n) => n,
        SpecifierView::Url(u) => u,
    }
}

impl Specifier {
    /// The canonical text form of this specifier. Queries are not part of
    /// a `Specifier` value, so none is ever re-derived here.
    pub fn to_string(&self) -> (r: String)
        ensures
            r@ == spec_to_text(self@),
    {
        match self {
            Specifier::Relative(p) => p.clone(),
            Specifier::Absolute(p) => p.clone(),
            Specifier::Tilde(p) => p.clone(),
            Specifier::Hash(f) => f.clone(),
            Specifier::Package(m, s) => {
                if s.as_str().is_empty() {
                    m.clone()
                } else {
                    let joined = m.clone().concat("/").concat(s.as_str());
                    proof {
                        reveal_strlit("/");
                        assert(m@ + "/"@ + s@ =~= m@ + seq!['/'] + s@);
                    }
                    joined
                }
            },
            Specifier::Builtin(n) => n.clone(),
            Specifier::Url(u) => u.clone(),
        }
    }
}

} // verus!
