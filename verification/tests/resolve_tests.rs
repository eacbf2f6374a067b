//! End-to-end tests: each drives `resolve` against a fixture of files and
//! directories, answering the resolver's snapshot queries the way a real
//! filesystem driver would.

use module_resolver::errors::{ErrorKind, ResolveError};
use module_resolver::fs::{Fs, FsKind};
use module_resolver::outcome::Outcome;
use module_resolver::resolve;

/// Run a resolution to completion, answering stat and read queries from the
/// fixture: `files` maps a path to its text, `dirs` lists the directories;
/// everything else is missing.
fn run(
    specifier: &str,
    referrer: &str,
    conditions: &[&str],
    files: &[(&str, &str)],
    dirs: &[&str],
) -> Result<String, ResolveError> {
    let conds: Vec<String> = conditions.iter().map(|s| s.to_string()).collect();
    let mut fs = Fs { stats: Vec::new(), reads: Vec::new() };
    for _ in 0..1000 {
        match resolve(specifier, referrer, &conds, &fs) {
            Outcome::Resolved(p) => return Ok(p),
            Outcome::Failed(e) => return Err(e),
            Outcome::NeedStat(p) => {
                let kind = if files.iter().any(|(f, _)| *f == p.as_str()) {
                    FsKind::File
                } else if dirs.iter().any(|d| *d == p.as_str()) {
                    FsKind::Dir
                } else {
                    FsKind::Missing
                };
                fs.stats.push((p, kind));
            }
            Outcome::NeedRead(p) => {
                let content = files
                    .iter()
                    .find(|(f, _)| *f == p.as_str())
                    .map(|(_, c)| c.to_string());
                fs.reads.push((p, content));
            }
        }
    }
    panic!("resolution did not settle");
}

#[test]
fn cjs_no_main() {
    let main_js = "/t/cjs_no_main/main.js";
    let files = [
        ("/t/cjs_no_main/main.js", ""),
        ("/t/cjs_no_main/node_modules/foo/package.json", "{}"),
        ("/t/cjs_no_main/node_modules/foo/index.js", ""),
    ];
    let p = run("foo", main_js, &[], &files, &[]).unwrap();
    assert_eq!(p, "/t/cjs_no_main/node_modules/foo/index.js");
}

#[test]
fn cjs_main_basic() {
    let main_js = "/t/cjs_main/main.js";
    let files = [
        ("/t/cjs_main/main.js", ""),
        (
            "/t/cjs_main/node_modules/foo/package.json",
            "{\"main\": \"main.js\"}",
        ),
        ("/t/cjs_main/node_modules/foo/main.js", ""),
    ];
    let p = run("foo", main_js, &[], &files, &[]).unwrap();
    assert_eq!(p, "/t/cjs_main/node_modules/foo/main.js");
}

#[test]
fn cjs_main_reach_inside() {
    let main_js = "/t/cjs_main/main.js";
    let files = [
        ("/t/cjs_main/main.js", ""),
        (
            "/t/cjs_main/node_modules/foo/package.json",
            "{\"main\": \"main.js\"}",
        ),
        ("/t/cjs_main/node_modules/foo/main.js", ""),
        ("/t/cjs_main/node_modules/foo/bar.js", ""),
        ("/t/cjs_main/node_modules/foo/dir/cat.js", ""),
    ];
    let dirs = [
        "/t/cjs_main/node_modules/foo/dir",
        "/t/cjs_main/node_modules/foo/dir/",
    ];

    let p = run("foo/bar.js", main_js, &[], &files, &dirs).unwrap();
    assert_eq!(p, "/t/cjs_main/node_modules/foo/bar.js");

    let p = run("foo/bar", main_js, &[], &files, &dirs).unwrap();
    assert_eq!(p, "/t/cjs_main/node_modules/foo/bar.js");

    let p = run("foo/dir/cat.js", main_js, &[], &files, &dirs).unwrap();
    assert_eq!(p, "/t/cjs_main/node_modules/foo/dir/cat.js");

    let p = run("foo/dir/cat", main_js, &[], &files, &dirs).unwrap();
    assert_eq!(p, "/t/cjs_main/node_modules/foo/dir/cat.js");

    let p = run("foo/dir", main_js, &[], &files, &dirs).unwrap();
    assert_eq!(p, "/t/cjs_main/node_modules/foo/dir/index.js");

    let p = run("foo/dir/", main_js, &[], &files, &dirs).unwrap();
    assert_eq!(p, "/t/cjs_main/node_modules/foo/dir/index.js");
}

#[test]
fn cjs_main_not_found() {
    let main_js = "/t/cjs_main/main.js";
    let files = [
        ("/t/cjs_main/main.js", ""),
        (
            "/t/cjs_main/node_modules/foo/package.json",
            "{\"main\": \"main.js\"}",
        ),
        ("/t/cjs_main/node_modules/foo/main.js", ""),
    ];
    let e = run("bar", main_js, &[], &files, &[]).unwrap_err();
    assert_eq!(e.kind, ErrorKind::ModuleNotFound);
    let msg = format!(
        "[ERR_MODULE_NOT_FOUND] Cannot find \"bar\" imported from \"{}\"",
        main_js
    );
    assert_eq!(e.message, msg);
}

#[test]
fn cjs_main_sibling() {
    let main_js = "/t/cjs_main/main.js";
    let files = [
        ("/t/cjs_main/main.js", ""),
        ("/t/cjs_main/sibling.js", ""),
    ];
    let p = run("./sibling.js", main_js, &[], &files, &[]).unwrap();
    assert_eq!(p, "/t/cjs_main/sibling.js");
    let p = run("./sibling", main_js, &[], &files, &[]).unwrap();
    assert_eq!(p, "/t/cjs_main/sibling.js");
}

#[test]
fn cjs_exports_string() {
    let main_js = "/t/cjs_exports_string/main.js";
    let files = [
        ("/t/cjs_exports_string/main.js", ""),
        (
            "/t/cjs_exports_string/node_modules/exports_string/package.json",
            "{\"exports\": \"./foo.js\"}",
        ),
        ("/t/cjs_exports_string/node_modules/exports_string/foo.js", ""),
    ];
    let p = run("exports_string", main_js, &[], &files, &[]).unwrap();
    assert_eq!(p, "/t/cjs_exports_string/node_modules/exports_string/foo.js");
}

#[test]
fn cjs_exports_conditional() {
    let main_js = "/t/cjs_exports_conditional/main.js";
    let files = [
        ("/t/cjs_exports_conditional/main.js", ""),
        (
            "/t/cjs_exports_conditional/node_modules/exports/package.json",
            "{\"exports\": {\"require\": \"./main-require.cjs\", \"import\": \"./main-module.js\"}}",
        ),
        (
            "/t/cjs_exports_conditional/node_modules/exports/main-require.cjs",
            "",
        ),
        (
            "/t/cjs_exports_conditional/node_modules/exports/main-module.js",
            "",
        ),
    ];
    let p = run("exports", main_js, &["require"], &files, &[]).unwrap();
    assert_eq!(
        p,
        "/t/cjs_exports_conditional/node_modules/exports/main-require.cjs"
    );

    let p = run("exports", main_js, &["import"], &files, &[]).unwrap();
    assert_eq!(
        p,
        "/t/cjs_exports_conditional/node_modules/exports/main-module.js"
    );
}

#[test]
fn cjs_exports_dot() {
    let main_js = "/t/cjs_exports_dot/main.js";
    let files = [
        ("/t/cjs_exports_dot/main.js", ""),
        (
            "/t/cjs_exports_dot/node_modules/exports/package.json",
            "{\"exports\": {\".\": \"./main-require.cjs\"}}",
        ),
        ("/t/cjs_exports_dot/node_modules/exports/main-require.cjs", ""),
    ];
    let p = run("exports", main_js, &[], &files, &[]).unwrap();
    assert_eq!(p, "/t/cjs_exports_dot/node_modules/exports/main-require.cjs");
}

#[test]
fn cjs_exports_multi() {
    let main_js = "/t/cjs_exports_multi/main.js";
    let files = [
        ("/t/cjs_exports_multi/main.js", ""),
        (
            "/t/cjs_exports_multi/node_modules/exports/package.json",
            "{\"exports\": {\".\": \"./main-require.cjs\", \"./*\": \"./*.js\"}}",
        ),
        ("/t/cjs_exports_multi/node_modules/exports/main-require.cjs", ""),
        ("/t/cjs_exports_multi/node_modules/exports/foo.js", ""),
        ("/t/cjs_exports_multi/node_modules/exports/bar/baz.js", ""),
    ];
    let p = run("exports", main_js, &[], &files, &[]).unwrap();
    assert_eq!(p, "/t/cjs_exports_multi/node_modules/exports/main-require.cjs");

    let p = run("exports/foo", main_js, &[], &files, &[]).unwrap();
    assert_eq!(p, "/t/cjs_exports_multi/node_modules/exports/foo.js");

    let p = run("exports/bar/baz", main_js, &[], &files, &[]).unwrap();
    assert_eq!(p, "/t/cjs_exports_multi/node_modules/exports/bar/baz.js");
}

#[test]
fn cjs_scoped() {
    let main_js = "/t/cjs_scoped/main.js";
    let files = [
        ("/t/cjs_scoped/main.js", ""),
        (
            "/t/cjs_scoped/node_modules/@ne-test-org/hello-world/package.json",
            "{}",
        ),
        (
            "/t/cjs_scoped/node_modules/@ne-test-org/hello-world/index.js",
            "",
        ),
    ];
    let p = run("@ne-test-org/hello-world", main_js, &[], &files, &[]).unwrap();
    assert_eq!(
        p,
        "/t/cjs_scoped/node_modules/@ne-test-org/hello-world/index.js"
    );
}

#[test]
fn conditional_exports() {
    let main_js = "/t/conditions/main.js";
    let files = [
        ("/t/conditions/main.js", ""),
        (
            "/t/conditions/node_modules/imports_exports/package.json",
            "{\"exports\": {\"import\": \"./import_export.js\", \"require\": \"./require_export.cjs\"}, \"imports\": {\"#dep\": \"./import_polyfill.js\"}}",
        ),
        ("/t/conditions/node_modules/imports_exports/import_export.js", ""),
        (
            "/t/conditions/node_modules/imports_exports/require_export.cjs",
            "",
        ),
        (
            "/t/conditions/node_modules/imports_exports/import_polyfill.js",
            "",
        ),
    ];
    let actual = run("imports_exports", main_js, &["node", "import"], &files, &[]).unwrap();
    assert_eq!(
        actual,
        "/t/conditions/node_modules/imports_exports/import_export.js"
    );

    let referrer = "/t/conditions/node_modules/imports_exports/import_export.js";
    let actual = run("#dep", referrer, &[], &files, &[]).unwrap();
    assert_eq!(
        actual,
        "/t/conditions/node_modules/imports_exports/import_polyfill.js"
    );
}

#[test]
fn pattern_tiebreak_shorter_key_wins() {
    // Both keys match `./f/xy.js` with equal static prefixes (`./f/`), so
    // the comparator falls to the shorter total key, deterministically.
    let main_js = "/t/tie/main.js";
    let files = [
        ("/t/tie/main.js", ""),
        (
            "/t/tie/node_modules/pkg/package.json",
            "{\"exports\": {\"./f/*.js\": \"./b/*\", \"./f/*\": \"./a/*\"}}",
        ),
    ];
    let p = run("pkg/f/xy.js", main_js, &[], &files, &[]).unwrap();
    assert_eq!(p, "/t/tie/node_modules/pkg/a/xy.js");
    let again = run("pkg/f/xy.js", main_js, &[], &files, &[]).unwrap();
    assert_eq!(p, again);
}

#[test]
fn resolve_is_idempotent() {
    let main_js = "/t/cjs_main/main.js";
    let files = [
        ("/t/cjs_main/main.js", ""),
        (
            "/t/cjs_main/node_modules/foo/package.json",
            "{\"main\": \"main.js\"}",
        ),
        ("/t/cjs_main/node_modules/foo/main.js", ""),
    ];
    let a = run("foo", main_js, &[], &files, &[]);
    let b = run("foo", main_js, &[], &files, &[]);
    assert_eq!(a.unwrap(), b.unwrap());
    let e1 = run("nope", main_js, &[], &files, &[]).unwrap_err();
    let e2 = run("nope", main_js, &[], &files, &[]).unwrap_err();
    assert_eq!(e1.kind, e2.kind);
    assert_eq!(e1.message, e2.message);
}

#[test]
fn condition_selection_order() {
    let main_js = "/t/conds/main.js";
    let files = [
        ("/t/conds/main.js", ""),
        (
            "/t/conds/node_modules/pkg/package.json",
            "{\"exports\": {\"require\": \"./a.cjs\", \"import\": \"./b.mjs\", \"default\": \"./c.js\"}}",
        ),
    ];
    let p = run("pkg", main_js, &["import"], &files, &[]).unwrap();
    assert_eq!(p, "/t/conds/node_modules/pkg/b.mjs");

    let p = run("pkg", main_js, &[], &files, &[]).unwrap();
    assert_eq!(p, "/t/conds/node_modules/pkg/c.js");

    let p = run("pkg", main_js, &["require"], &files, &[]).unwrap();
    assert_eq!(p, "/t/conds/node_modules/pkg/a.cjs");
}

#[test]
fn traversal_rejected() {
    let main_js = "/t/trav/main.js";
    let files_escape = [
        ("/t/trav/main.js", ""),
        (
            "/t/trav/node_modules/pkg/package.json",
            "{\"exports\": {\".\": \"./../escape.js\"}}",
        ),
    ];
    let e = run("pkg", main_js, &[], &files_escape, &[]).unwrap_err();
    assert_eq!(e.kind, ErrorKind::InvalidPackageTarget);

    let files_nm = [
        ("/t/trav/main.js", ""),
        (
            "/t/trav/node_modules/pkg/package.json",
            "{\"exports\": {\".\": \"./node_modules/x.js\"}}",
        ),
    ];
    let e = run("pkg", main_js, &[], &files_nm, &[]).unwrap_err();
    assert_eq!(e.kind, ErrorKind::InvalidPackageTarget);
}

#[test]
fn scoped_subpath() {
    let main_js = "/t/scoped/main.js";
    let files = [
        ("/t/scoped/main.js", ""),
        ("/t/scoped/node_modules/@scope/name/package.json", "{}"),
        ("/t/scoped/node_modules/@scope/name/sub.js", ""),
    ];
    let p = run("@scope/name/sub.js", main_js, &[], &files, &[]).unwrap();
    assert_eq!(p, "/t/scoped/node_modules/@scope/name/sub.js");

    let files_missing = [
        ("/t/scoped/main.js", ""),
        ("/t/scoped/node_modules/@scope/name/package.json", "{}"),
    ];
    let e = run("@scope/name/sub.js", main_js, &[], &files_missing, &[]).unwrap_err();
    assert_eq!(e.kind, ErrorKind::ModuleNotFound);
}

#[test]
fn legacy_main_extension_variants() {
    let main_js = "/t/legacy/main.js";
    let files = [
        ("/t/legacy/main.js", ""),
        (
            "/t/legacy/node_modules/pkg/package.json",
            "{\"main\": \"lib/entry\"}",
        ),
        ("/t/legacy/node_modules/pkg/lib/entry.json", ""),
        ("/t/legacy/node_modules/pkg/lib/entry.node", ""),
    ];
    let p = run("pkg", main_js, &[], &files, &[]).unwrap();
    assert_eq!(p, "/t/legacy/node_modules/pkg/lib/entry.json");
}

#[test]
fn legacy_main_not_found_message() {
    // No entry point exists at all: the error names the package directory and
    // the referrer.
    let main_js = "/t/legacy2/main.js";
    let files = [
        ("/t/legacy2/main.js", ""),
        (
            "/t/legacy2/node_modules/pkg/package.json",
            "{\"main\": \"gone.js\"}",
        ),
    ];
    let e = run("pkg", main_js, &[], &files, &[]).unwrap_err();
    assert_eq!(e.kind, ErrorKind::ModuleNotFound);
    assert_eq!(
        e.message,
        "[ERR_MODULE_NOT_FOUND] Cannot find \"/t/legacy2/node_modules/pkg\" imported from \"/t/legacy2/main.js\""
    );
}

#[test]
fn not_exported_subpath() {
    let main_js = "/t/ne/main.js";
    let files = [
        ("/t/ne/main.js", ""),
        (
            "/t/ne/node_modules/pkg/package.json",
            "{\"exports\": \"./x.js\"}",
        ),
    ];
    let e = run("pkg/other", main_js, &[], &files, &[]).unwrap_err();
    assert_eq!(e.kind, ErrorKind::PackagePathNotExported);
}

#[test]
fn invalid_specifiers() {
    let main_js = "/t/bad/main.js";
    let files = [("/t/bad/main.js", "")];

    let e = run("/abs/path.js", main_js, &[], &files, &[]).unwrap_err();
    assert_eq!(e.kind, ErrorKind::InvalidModuleSpecifier);

    let e = run("@scopeonly", main_js, &[], &files, &[]).unwrap_err();
    assert_eq!(e.kind, ErrorKind::InvalidModuleSpecifier);

    let e = run("pkg%2fname", main_js, &[], &files, &[]).unwrap_err();
    assert_eq!(e.kind, ErrorKind::InvalidModuleSpecifier);

    let e = run("#", main_js, &[], &files, &[]).unwrap_err();
    assert_eq!(e.kind, ErrorKind::InvalidModuleSpecifier);

    let e = run("#/x", main_js, &[], &files, &[]).unwrap_err();
    assert_eq!(e.kind, ErrorKind::InvalidModuleSpecifier);
}

#[test]
fn import_not_defined() {
    let main_js = "/t/imp/main.js";
    let files = [
        ("/t/imp/main.js", ""),
        ("/t/imp/package.json", "{\"name\": \"imp\"}"),
    ];
    let e = run("#missing", main_js, &[], &files, &[]).unwrap_err();
    assert_eq!(e.kind, ErrorKind::PackageImportNotDefined);

    let e = run("#nowhere", "/u/lost/file.js", &[], &[("/u/lost/file.js", "")], &[]).unwrap_err();
    assert_eq!(e.kind, ErrorKind::PackageImportNotDefined);
}

#[test]
fn invalid_package_config() {
    let main_js = "/t/badcfg/main.js";
    let files_malformed = [
        ("/t/badcfg/main.js", ""),
        ("/t/badcfg/node_modules/pkg/package.json", "{not json"),
    ];
    let e = run("pkg", main_js, &[], &files_malformed, &[]).unwrap_err();
    assert_eq!(e.kind, ErrorKind::InvalidPackageConfig);

    let files_mixed = [
        ("/t/badcfg/main.js", ""),
        (
            "/t/badcfg/node_modules/pkg/package.json",
            "{\"exports\": {\".\": \"./a.js\", \"b\": \"./b.js\"}}",
        ),
    ];
    let e = run("pkg", main_js, &[], &files_mixed, &[]).unwrap_err();
    assert_eq!(e.kind, ErrorKind::InvalidPackageConfig);
}

#[test]
fn self_reference() {
    let referrer = "/t/selfref/src/app.js";
    let files = [
        ("/t/selfref/src/app.js", ""),
        (
            "/t/selfref/package.json",
            "{\"name\": \"me\", \"exports\": {\".\": \"./self.js\"}}",
        ),
    ];
    let p = run("me", referrer, &[], &files, &[]).unwrap();
    assert_eq!(p, "/t/selfref/self.js");
}

#[test]
fn imports_bare_reentry() {
    let referrer = "/t/re/node_modules/host/lib.js";
    let files = [
        ("/t/re/node_modules/host/lib.js", ""),
        (
            "/t/re/node_modules/host/package.json",
            "{\"imports\": {\"#dep\": \"dep-pkg\"}}",
        ),
        (
            "/t/re/node_modules/dep-pkg/package.json",
            "{\"main\": \"entry.js\"}",
        ),
        ("/t/re/node_modules/dep-pkg/entry.js", ""),
    ];
    let p = run("#dep", referrer, &[], &files, &[]).unwrap();
    assert_eq!(p, "/t/re/node_modules/dep-pkg/entry.js");
}

#[test]
fn exports_list_skips_invalid_target() {
    let main_js = "/t/list/main.js";
    let files = [
        ("/t/list/main.js", ""),
        (
            "/t/list/node_modules/pkg/package.json",
            "{\"exports\": {\".\": [\"no-dot-slash\", \"./ok.js\"]}}",
        ),
    ];
    let p = run("pkg", main_js, &[], &files, &[]).unwrap();
    assert_eq!(p, "/t/list/node_modules/pkg/ok.js");
}

#[test]
fn exports_empty_list_and_null() {
    let main_js = "/t/empty/main.js";
    let files_list = [
        ("/t/empty/main.js", ""),
        (
            "/t/empty/node_modules/pkg/package.json",
            "{\"exports\": {\".\": []}}",
        ),
    ];
    let e = run("pkg", main_js, &[], &files_list, &[]).unwrap_err();
    assert_eq!(e.kind, ErrorKind::PackagePathNotExported);

    let files_null = [
        ("/t/empty/main.js", ""),
        (
            "/t/empty/node_modules/pkg/package.json",
            "{\"exports\": null}",
        ),
    ];
    let e = run("pkg", main_js, &[], &files_null, &[]).unwrap_err();
    assert_eq!(e.kind, ErrorKind::PackagePathNotExported);
}

#[test]
fn condition_miss_falls_through() {
    // An active condition whose value is `null` matches nothing; the walk
    // falls through in file order to the next active entry.
    let main_js = "/t/fall/main.js";
    let files = [
        ("/t/fall/main.js", ""),
        (
            "/t/fall/node_modules/pkg/package.json",
            "{\"exports\": {\".\": {\"import\": null, \"default\": \"./c.js\"}}}",
        ),
    ];
    let p = run("pkg", main_js, &["import"], &files, &[]).unwrap();
    assert_eq!(p, "/t/fall/node_modules/pkg/c.js");
}

#[test]
fn empty_specifier() {
    let main_js = "/t/e/main.js";
    let e = run("", main_js, &[], &[("/t/e/main.js", "")], &[]).unwrap_err();
    assert_eq!(e.kind, ErrorKind::InvalidModuleSpecifier);
}

#[test]
fn imports_pattern_substitution() {
    let referrer = "/t/pat/lib/file.js";
    let files = [
        ("/t/pat/lib/file.js", ""),
        (
            "/t/pat/package.json",
            "{\"imports\": {\"#internal/*\": \"./src/internal/*.js\"}}",
        ),
    ];
    let p = run("#internal/utils/math", referrer, &[], &files, &[]).unwrap();
    assert_eq!(p, "/t/pat/src/internal/utils/math.js");
}
