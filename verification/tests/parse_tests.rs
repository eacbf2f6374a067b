//! Tests of bare-specifier splitting.

use module_resolver::parse_specifier::parse_specifier;

#[test]
fn test_parse_specifier() {
    let cases = vec![
        (
            "@parcel/css-darwin-arm64",
            Some(("@parcel/css-darwin-arm64", ".")),
        ),
        ("./path/to/directory", Some((".", "./path/to/directory"))),
        ("a-package/foo", Some(("a-package", "./foo"))),
        ("a-package/m.mjs", Some(("a-package", "./m.mjs"))),
        (
            "es-module-package/features/x",
            Some(("es-module-package", "./features/x")),
        ),
    ];
    for (input, expected) in cases {
        let r = parse_specifier(input);
        if let Some((package_name, subpath)) = expected {
            let actual = r.unwrap();
            assert_eq!(actual.0, package_name);
            assert!(actual.1.starts_with("./") || actual.1 == ".");
            assert_eq!(actual.1, subpath);
        } else {
            assert!(r.is_none());
        }
    }
}

#[test]
fn parse_specifier_scoped_subpath() {
    let r = parse_specifier("@scope/name/sub.js").unwrap();
    assert_eq!(r.0, "@scope/name");
    assert_eq!(r.1, "./sub.js");
}

#[test]
fn parse_specifier_invalid() {
    assert!(parse_specifier("").is_none());
    assert!(parse_specifier("@scopeonly").is_none());
    assert!(parse_specifier("pkg%2fname").is_none());
    assert!(parse_specifier("pkg\\name").is_none());
}
