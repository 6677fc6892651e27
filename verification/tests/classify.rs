use specifier::{ParseFlags, Specifier, SpecifierError, SpecifierType};

fn npm_flags() -> ParseFlags {
    ParseFlags { npm_scheme: true, absolute_specifiers: false }
}

#[test]
fn empty_fails_in_every_context() {
    for ty in [SpecifierType::Esm, SpecifierType::Cjs, SpecifierType::Url] {
        let r = Specifier::parse("", ty, ParseFlags::empty());
        assert_eq!(r, Err(SpecifierError::EmptySpecifier));
    }
}

#[test]
fn relative_with_dot_slash_stripped() {
    let r = Specifier::parse("./a/b.js", SpecifierType::Esm, ParseFlags::empty()).unwrap();
    assert_eq!(r.0, Specifier::Relative("a/b.js".to_string()));
    assert_eq!(r.1, None);
}

#[test]
fn parent_relative_kept_whole() {
    let r = Specifier::parse("../a.js", SpecifierType::Esm, ParseFlags::empty()).unwrap();
    assert_eq!(r.0, Specifier::Relative("../a.js".to_string()));
    assert_eq!(r.1, None);
}

#[test]
fn tilde_strips_marker_and_separator() {
    let r = Specifier::parse("~/a.js", SpecifierType::Esm, ParseFlags::empty()).unwrap();
    assert_eq!(r.0, Specifier::Tilde("a.js".to_string()));
    assert_eq!(r.1, None);
}

#[test]
fn hash_keeps_fragment_verbatim() {
    let r = Specifier::parse("#chunk", SpecifierType::Esm, ParseFlags::empty()).unwrap();
    assert_eq!(r.0, Specifier::Hash("chunk".to_string()));
    assert_eq!(r.1, None);
}

#[test]
fn hash_extracts_no_query() {
    let r = Specifier::parse("#chunk?x=1", SpecifierType::Esm, ParseFlags::empty()).unwrap();
    assert_eq!(r.0, Specifier::Hash("chunk?x=1".to_string()));
    assert_eq!(r.1, None);
}

#[test]
fn scoped_package_with_subpath() {
    let r = Specifier::parse("@scope/pkg/sub", SpecifierType::Esm, ParseFlags::empty()).unwrap();
    assert_eq!(r.0, Specifier::Package("@scope/pkg".to_string(), "sub".to_string()));
    assert_eq!(r.1, None);
}

#[test]
fn scope_without_name_is_invalid() {
    let r = Specifier::parse("@scope", SpecifierType::Esm, ParseFlags::empty());
    assert_eq!(r, Err(SpecifierError::InvalidPackageSpecifier));
}

#[test]
fn node_scheme_discards_query() {
    let r = Specifier::parse("node:fs?x=1", SpecifierType::Esm, ParseFlags::empty()).unwrap();
    assert_eq!(r.0, Specifier::Builtin("fs".to_string()));
    assert_eq!(r.1, None);
}

#[test]
fn npm_scheme_splits_package_and_keeps_query() {
    let r = Specifier::parse("npm:lodash/fp?x=1", SpecifierType::Esm, npm_flags()).unwrap();
    assert_eq!(r.0, Specifier::Package("lodash".to_string(), "fp".to_string()));
    assert_eq!(r.1, Some("?x=1".to_string()));
}

#[test]
fn npm_scheme_builtin_short_circuits() {
    let r = Specifier::parse("npm:fs?x=1", SpecifierType::Esm, npm_flags()).unwrap();
    assert_eq!(r.0, Specifier::Builtin("fs".to_string()));
    assert_eq!(r.1, None);
}

#[test]
fn npm_scheme_off_is_opaque_url() {
    let r = Specifier::parse("npm:lodash/fp", SpecifierType::Esm, ParseFlags::empty()).unwrap();
    assert_eq!(r.0, Specifier::Url("npm:lodash/fp".to_string()));
    assert_eq!(r.1, None);
}

#[test]
fn file_url_becomes_absolute() {
    let r = Specifier::parse("file:///a/b.js", SpecifierType::Esm, ParseFlags::empty()).unwrap();
    assert_eq!(r.0, Specifier::Absolute("/a/b.js".to_string()));
    assert_eq!(r.1, None);
}

#[test]
fn file_url_decodes_escapes() {
    let r = Specifier::parse("file:///a%20b.js", SpecifierType::Esm, ParseFlags::empty()).unwrap();
    assert_eq!(r.0, Specifier::Absolute("/a b.js".to_string()));
}

#[test]
fn file_url_with_remote_host_is_invalid() {
    let r = Specifier::parse("file://remotehost/a", SpecifierType::Esm, ParseFlags::empty());
    assert_eq!(r, Err(SpecifierError::InvalidFileUrl));
}

#[test]
fn malformed_url_carries_detail() {
    let r = Specifier::parse("file://[oops/a", SpecifierType::Esm, ParseFlags::empty());
    assert!(matches!(r, Err(SpecifierError::UrlError(_))));
}

#[test]
fn unknown_scheme_is_opaque_url() {
    let r = Specifier::parse("mailto:someone@example.com", SpecifierType::Esm, ParseFlags::empty())
        .unwrap();
    assert_eq!(r.0, Specifier::Url("mailto:someone@example.com".to_string()));
    assert_eq!(r.1, None);
}

#[test]
fn scheme_is_lowercased() {
    let r = Specifier::parse("NODE:fs", SpecifierType::Esm, ParseFlags::empty()).unwrap();
    assert_eq!(r.0, Specifier::Builtin("fs".to_string()));
}

#[test]
fn esm_bare_builtin() {
    let r = Specifier::parse("fs", SpecifierType::Esm, ParseFlags::empty()).unwrap();
    assert_eq!(r.0, Specifier::Builtin("fs".to_string()));
    assert_eq!(r.1, None);
}

#[test]
fn esm_bare_package_decodes_path() {
    let r = Specifier::parse("pkg%2Da/sub", SpecifierType::Esm, ParseFlags::empty()).unwrap();
    assert_eq!(r.0, Specifier::Package("pkg-a".to_string(), "sub".to_string()));
}

#[test]
fn esm_relative_decodes_path() {
    let r = Specifier::parse("./a%20b.js", SpecifierType::Esm, ParseFlags::empty()).unwrap();
    assert_eq!(r.0, Specifier::Relative("a b.js".to_string()));
}

#[test]
fn esm_query_and_fragment_split() {
    let r = Specifier::parse("./a.js?q=1#frag", SpecifierType::Esm, ParseFlags::empty()).unwrap();
    assert_eq!(r.0, Specifier::Relative("a.js".to_string()));
    assert_eq!(r.1, Some("?q=1".to_string()));
}

#[test]
fn url_context_protocol_relative() {
    let r = Specifier::parse("//example.com/foo.png", SpecifierType::Url, ParseFlags::empty())
        .unwrap();
    assert_eq!(r.0, Specifier::Url("//example.com/foo.png".to_string()));
    assert_eq!(r.1, None);
}

#[test]
fn esm_double_slash_is_absolute() {
    let r = Specifier::parse("//a/b", SpecifierType::Esm, ParseFlags::empty()).unwrap();
    assert_eq!(r.0, Specifier::Absolute("//a/b".to_string()));
}

#[test]
fn url_context_bare_is_relative() {
    let r = Specifier::parse("foo/bar.css", SpecifierType::Url, ParseFlags::empty()).unwrap();
    assert_eq!(r.0, Specifier::Relative("foo/bar.css".to_string()));
    assert_eq!(r.1, None);
}

#[test]
fn cjs_bare_builtin_verbatim() {
    let r = Specifier::parse("path", SpecifierType::Cjs, ParseFlags::empty()).unwrap();
    assert_eq!(r.0, Specifier::Builtin("path".to_string()));
}

#[test]
fn cjs_bare_package_never_decodes() {
    let r = Specifier::parse("pkg%2Da/sub", SpecifierType::Cjs, ParseFlags::empty()).unwrap();
    assert_eq!(r.0, Specifier::Package("pkg%2Da".to_string(), "sub".to_string()));
    assert_eq!(r.1, None);
}

#[test]
fn cjs_relative_keeps_query_text() {
    let r = Specifier::parse("./x?y=1", SpecifierType::Cjs, ParseFlags::empty()).unwrap();
    assert_eq!(r.0, Specifier::Relative("x?y=1".to_string()));
    assert_eq!(r.1, None);
}

#[test]
fn cjs_absolute_verbatim() {
    let r = Specifier::parse("/a/b.js", SpecifierType::Cjs, ParseFlags::empty()).unwrap();
    assert_eq!(r.0, Specifier::Absolute("/a/b.js".to_string()));
}

#[test]
fn absolute_with_escape_decodes_under_esm() {
    let r = Specifier::parse("/a%20b", SpecifierType::Esm, ParseFlags::empty()).unwrap();
    assert_eq!(r.0, Specifier::Absolute("/a b".to_string()));
}

#[test]
fn tilde_without_separator() {
    let r = Specifier::parse("~abc", SpecifierType::Esm, ParseFlags::empty()).unwrap();
    assert_eq!(r.0, Specifier::Tilde("abc".to_string()));
}

#[test]
fn tilde_alone_is_empty_payload() {
    let r = Specifier::parse("~", SpecifierType::Esm, ParseFlags::empty()).unwrap();
    assert_eq!(r.0, Specifier::Tilde(String::new()));
    assert_eq!(r.1, None);
}

#[test]
fn url_context_with_scheme_is_opaque() {
    let r = Specifier::parse("https://example.com/a.png", SpecifierType::Url, ParseFlags::empty())
        .unwrap();
    assert_eq!(r.0, Specifier::Url("https://example.com/a.png".to_string()));
    assert_eq!(r.1, None);
}

#[test]
fn classification_is_idempotent_across_calls() {
    for input in ["./a/b.js", "@scope/pkg/sub", "node:fs?x=1", "file:///a/b.js", ""] {
        let first = Specifier::parse(input, SpecifierType::Esm, ParseFlags::empty());
        let second = Specifier::parse(input, SpecifierType::Esm, ParseFlags::empty());
        assert_eq!(first, second);
    }
}

#[test]
fn bare_dot_files_stay_relative() {
    let r = Specifier::parse(".hidden", SpecifierType::Esm, ParseFlags::empty()).unwrap();
    assert_eq!(r.0, Specifier::Relative(".hidden".to_string()));
}

#[test]
fn unscoped_empty_module_from_leading_query() {
    // A bare specifier that is all query: the path is empty and splits
    // into an empty package name.
    let r = Specifier::parse("?x=1", SpecifierType::Esm, ParseFlags::empty()).unwrap();
    assert_eq!(r.0, Specifier::Package(String::new(), String::new()));
    assert_eq!(r.1, Some("?x=1".to_string()));
}

#[test]
fn file_url_keeps_query_from_split() {
    let r = Specifier::parse("file:///a/b.js?x=1#f", SpecifierType::Esm, ParseFlags::empty())
        .unwrap();
    assert_eq!(r.0, Specifier::Absolute("/a/b.js".to_string()));
    assert_eq!(r.1, Some("?x=1".to_string()));
}
