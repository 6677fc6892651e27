use specifier::{
    decode_path, is_builtin, parse_package_specifier, parse_scheme, ParseFlags, Specifier,
    SpecifierError, SpecifierType,
};

#[test]
fn scheme_lowercase_borrowable() {
    let r = parse_scheme("http://x").unwrap();
    assert_eq!(r.0, "http".to_string());
    assert_eq!(r.1, "//x");
}

#[test]
fn scheme_mixed_case_lowered() {
    let r = parse_scheme("HtTp+X-1.z:rest?q").unwrap();
    assert_eq!(r.0, "http+x-1.z".to_string());
    assert_eq!(r.1, "rest?q");
}

#[test]
fn scheme_needs_leading_alpha() {
    assert!(parse_scheme("1http:x").is_err());
    assert!(parse_scheme("").is_err());
}

#[test]
fn scheme_needs_colon() {
    assert!(parse_scheme("no-colon").is_err());
}

#[test]
fn scheme_rejects_other_characters() {
    assert!(parse_scheme("ht tp:x").is_err());
    assert!(parse_scheme("a/b:x").is_err());
}

#[test]
fn package_split_examples() {
    assert_eq!(parse_package_specifier("@scope/pkg/a/b").unwrap(), ("@scope/pkg", "a/b"));
    assert_eq!(parse_package_specifier("@scope/pkg").unwrap(), ("@scope/pkg", ""));
    assert_eq!(
        parse_package_specifier("@scope"),
        Err(SpecifierError::InvalidPackageSpecifier)
    );
    assert_eq!(parse_package_specifier("lodash/fp").unwrap(), ("lodash", "fp"));
    assert_eq!(parse_package_specifier("lodash").unwrap(), ("lodash", ""));
}

#[test]
fn package_roundtrip_through_text() {
    for input in ["@scope/pkg/a/b", "@scope/pkg", "lodash/fp", "lodash"] {
        let (module, subpath) = parse_package_specifier(input).unwrap();
        let text = Specifier::Package(module.to_string(), subpath.to_string()).to_string();
        let again = parse_package_specifier(&text).unwrap();
        assert_eq!(again, (module, subpath));
    }
}

#[test]
fn package_to_string_forms() {
    let with_subpath = Specifier::Package("lodash".to_string(), "fp".to_string());
    assert_eq!(with_subpath.to_string(), "lodash/fp".to_string());
    let bare = Specifier::Package("lodash".to_string(), String::new());
    assert_eq!(bare.to_string(), "lodash".to_string());
}

#[test]
fn to_string_other_variants_verbatim() {
    assert_eq!(Specifier::Relative("a/b.js".to_string()).to_string(), "a/b.js");
    assert_eq!(Specifier::Absolute("/a".to_string()).to_string(), "/a");
    assert_eq!(Specifier::Tilde("x".to_string()).to_string(), "x");
    assert_eq!(Specifier::Hash("frag".to_string()).to_string(), "frag");
    assert_eq!(Specifier::Builtin("fs".to_string()).to_string(), "fs");
    assert_eq!(Specifier::Url("npm:x".to_string()).to_string(), "npm:x");
}

#[test]
fn classify_roundtrip_concrete() {
    // Variants whose canonical text classifies back to the same variant.
    for (input, ty) in [
        ("../a.js", SpecifierType::Esm),
        ("../a.js", SpecifierType::Cjs),
        ("/a/b.js", SpecifierType::Esm),
        ("/a/b.js", SpecifierType::Cjs),
        ("fs", SpecifierType::Esm),
        ("fs", SpecifierType::Cjs),
    ] {
        let flags = ParseFlags::empty();
        let first = Specifier::parse(input, ty, flags).unwrap().0;
        let again = Specifier::parse(&first.to_string(), ty, flags).unwrap().0;
        assert_eq!(first, again);
    }
}

#[test]
fn decode_path_esm_splits_and_decodes() {
    let (path, query) = decode_path("a%2Fb?x=1#f", SpecifierType::Esm);
    assert_eq!(path, "a/b".to_string());
    assert_eq!(query, Some("?x=1".to_string()));
}

#[test]
fn decode_path_cjs_verbatim() {
    let (path, query) = decode_path("a%2Fb?x=1#f", SpecifierType::Cjs);
    assert_eq!(path, "a%2Fb?x=1#f".to_string());
    assert_eq!(query, None);
}

#[test]
fn builtin_membership() {
    assert!(is_builtin("fs"));
    assert!(is_builtin("worker_threads"));
    assert!(!is_builtin("lodash"));
    assert!(!is_builtin(""));
    assert!(!is_builtin("FS"));
}
