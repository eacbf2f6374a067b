//! Tests of loading and reading one `package.json`.

use module_resolver::errors::ErrorKind;
use module_resolver::package_json::{ModuleType, PackageJson};

#[test]
fn load_reads_fields() {
    let p = PackageJson::load(
        "/p/package.json".to_string(),
        "{\"name\": \"pkg\", \"main\": \"lib/index.js\", \"type\": \"module\"}",
    )
    .unwrap();
    assert!(p.exists);
    assert_eq!(p.name().unwrap(), "pkg");
    assert_eq!(p.main().unwrap(), "lib/index.js");
    assert!(matches!(p.module_type(), ModuleType::Module));
    assert!(p.exports().is_none());
    assert!(p.imports().is_none());
}

#[test]
fn module_type_normalizes_unknown_values() {
    let p = PackageJson::load("/p/package.json".to_string(), "{\"type\": \"commonjs\"}").unwrap();
    assert!(matches!(p.module_type(), ModuleType::CommonJs));

    let p = PackageJson::load("/p/package.json".to_string(), "{\"type\": \"future\"}").unwrap();
    assert!(matches!(p.module_type(), ModuleType::Unknown));

    let p = PackageJson::load("/p/package.json".to_string(), "{\"type\": 7}").unwrap();
    assert!(matches!(p.module_type(), ModuleType::Unknown));

    let p = PackageJson::load("/p/package.json".to_string(), "{}").unwrap();
    assert!(matches!(p.module_type(), ModuleType::Unknown));
}

#[test]
fn load_of_non_object_document() {
    let p = PackageJson::load("/p/package.json".to_string(), "3").unwrap();
    assert!(p.exists);
    assert!(p.name().is_none());
    assert!(p.main().is_none());
    assert!(p.exports().is_none());
}

#[test]
fn load_rejects_malformed_text() {
    let e = PackageJson::load("/p/package.json".to_string(), "{oops").unwrap_err();
    assert_eq!(e.kind, ErrorKind::InvalidPackageConfig);
}

#[test]
fn load_rejects_mixed_exports_keys() {
    let e = PackageJson::load(
        "/p/package.json".to_string(),
        "{\"exports\": {\".\": \"./a.js\", \"import\": \"./b.js\"}}",
    )
    .unwrap_err();
    assert_eq!(e.kind, ErrorKind::InvalidPackageConfig);
    assert!(e.message.starts_with("[ERR_INVALID_PACKAGE_CONFIG]"));
}
