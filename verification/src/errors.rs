//! The resolver's error taxonomy, and the builders that render each error's
//! host-style bracketed message.

use vstd::prelude::*;
use vstd::string::*;
use crate::strings::{concat2, spec_has_dot_slash, str_eq};

verus! {

/// The kinds of failure a resolve call can report.
#[derive(Clone, Copy, Debug, PartialEq, Eq, Structural)]
pub enum ErrorKind {
    /// Malformed bare or internal specifier syntax.
    InvalidModuleSpecifier,
    /// Malformed `package.json` text, or an exports object mixing
    /// subpath-keyed and condition-keyed entries.
    InvalidPackageConfig,
    /// A target value in "exports"/"imports" that is structurally disallowed.
    InvalidPackageTarget,
    /// A valid subpath request with no matching exports entry.
    PackagePathNotExported,
    /// A valid `#name` request with no matching imports entry or no governing
    /// package.
    PackageImportNotDefined,
    /// Final failure to locate a concrete file.
    ModuleNotFound,
}

/// An error outcome: its kind, and a rendered message carrying the offending
/// specifier, the referrer and (where applicable) the `package.json` path.
#[derive(Debug)]
pub struct ResolveError {
    pub kind: ErrorKind,
    pub message: String,
}

/// Mathematical image of a [`ResolveError`].
pub struct SpecErr {
    pub kind: ErrorKind,
    pub message: Seq<char>,
}

impl View for ResolveError {
    type V = SpecErr;

    open spec fn view(&self) -> SpecErr {
        SpecErr { kind: self.kind, message: self.message@ }
    }
}

/// The view of an optional borrowed string.
pub open spec fn opt_view(o: Option<&str>) -> Option<Seq<char>> {
    match o {
        Option::Some(s) => Option::Some(s@),
        Option::None => Option::None,
    }
}

/// Message of an [`ErrorKind::InvalidModuleSpecifier`] error.
pub open spec fn msg_invalid_module_specifier(
    request: Seq<char>,
    reason: Seq<char>,
    base: Option<Seq<char>>,
) -> Seq<char> {
    let m = "[ERR_INVALID_MODULE_SPECIFIER] Invalid module \""@ + request + "\" "@ + reason;
    match base {
        Option::Some(b) => m + " imported from "@ + b,
        Option::None => m,
    }
}

/// Malformed bare or internal specifier syntax.
pub fn err_invalid_module_specifier(request: &str, reason: &str, maybe_base: Option<&str>) -> (e:
    ResolveError)
    ensures
        e@.kind == ErrorKind::InvalidModuleSpecifier,
        e@.message == msg_invalid_module_specifier(request@, reason@, opt_view(maybe_base)),
{
    let mut m = concat2("[ERR_INVALID_MODULE_SPECIFIER] Invalid module \"", request);
    m.append("\" ");
    m.append(reason);
    if let Some(base) = maybe_base {
        m.append(" imported from ");
        m.append(base);
    }
    proof {
        assert(m@ =~= msg_invalid_module_specifier(request@, reason@, opt_view(maybe_base)));
    }
    ResolveError { kind: ErrorKind::InvalidModuleSpecifier, message: m }
}

/// Message of an [`ErrorKind::InvalidPackageConfig`] error.
pub open spec fn msg_invalid_package_config(
    path: Seq<char>,
    base: Option<Seq<char>>,
    message: Option<Seq<char>>,
) -> Seq<char> {
    let m = "[ERR_INVALID_PACKAGE_CONFIG] Invalid package config "@ + path;
    let m2 = match base {
        Option::Some(b) => m + " while importing "@ + b,
        Option::None => m,
    };
    match message {
        Option::Some(extra) => m2 + ". "@ + extra,
        Option::None => m2,
    }
}

/// Malformed `package.json`, or a mixed exports object.
pub fn err_invalid_package_config(
    path: &str,
    maybe_base: Option<&str>,
    maybe_message: Option<&str>,
) -> (e: ResolveError)
    ensures
        e@.kind == ErrorKind::InvalidPackageConfig,
        e@.message == msg_invalid_package_config(
            path@,
            opt_view(maybe_base),
            opt_view(maybe_message),
        ),
{
    let mut m = concat2("[ERR_INVALID_PACKAGE_CONFIG] Invalid package config ", path);
    if let Some(base) = maybe_base {
        m.append(" while importing ");
        m.append(base);
    }
    if let Some(extra) = maybe_message {
        m.append(". ");
        m.append(extra);
    }
    proof {
        assert(m@ =~= msg_invalid_package_config(
            path@,
            opt_view(maybe_base),
            opt_view(maybe_message),
        ));
    }
    ResolveError { kind: ErrorKind::InvalidPackageConfig, message: m }
}

/// Message of an [`ErrorKind::ModuleNotFound`] error that names what kind of
/// thing was searched for.
pub open spec fn msg_module_not_found(path: Seq<char>, base: Seq<char>, typ: Seq<char>) -> Seq<
    char,
> {
    "[ERR_MODULE_NOT_FOUND] Cannot find "@ + typ + " \""@ + path + "\" imported from \""@ + base
        + "\""@
}

/// Failure to locate a package (or other named kind of thing).
pub fn err_module_not_found(path: &str, base: &str, typ: &str) -> (e: ResolveError)
    ensures
        e@.kind == ErrorKind::ModuleNotFound,
        e@.message == msg_module_not_found(path@, base@, typ@),
{
    let mut m = concat2("[ERR_MODULE_NOT_FOUND] Cannot find ", typ);
    m.append(" \"");
    m.append(path);
    m.append("\" imported from \"");
    m.append(base);
    m.append("\"");
    proof {
        assert(m@ =~= msg_module_not_found(path@, base@, typ@));
    }
    ResolveError { kind: ErrorKind::ModuleNotFound, message: m }
}

/// Message of an [`ErrorKind::ModuleNotFound`] error for a plain path probe.
pub open spec fn msg_not_found(path: Seq<char>, referrer: Seq<char>) -> Seq<char> {
    "[ERR_MODULE_NOT_FOUND] Cannot find \""@ + path + "\" imported from \""@ + referrer + "\""@
}

/// Failure to locate a concrete file.
pub fn not_found(path: &str, referrer: &str) -> (e: ResolveError)
    ensures
        e@.kind == ErrorKind::ModuleNotFound,
        e@.message == msg_not_found(path@, referrer@),
{
    let mut m = concat2("[ERR_MODULE_NOT_FOUND] Cannot find \"", path);
    m.append("\" imported from \"");
    m.append(referrer);
    m.append("\"");
    proof {
        assert(m@ =~= msg_not_found(path@, referrer@));
    }
    ResolveError { kind: ErrorKind::ModuleNotFound, message: m }
}

/// Message of an [`ErrorKind::InvalidPackageTarget`] error. `pkg_path` is the
/// package directory with a trailing separator.
pub open spec fn msg_invalid_package_target(
    pkg_path: Seq<char>,
    key: Seq<char>,
    target: Seq<char>,
    is_import: bool,
    base: Option<Seq<char>>,
) -> Seq<char> {
    let rel_error = !is_import && target.len() > 0 && !spec_has_dot_slash(target);
    let m = if key == "."@ {
        "[ERR_INVALID_PACKAGE_TARGET] Invalid \"exports\" main target "@ + target
            + " defined in the package config "@ + pkg_path + "package.json"@
    } else {
        let ie = if is_import {
            "imports"@
        } else {
            "exports"@
        };
        "[ERR_INVALID_PACKAGE_TARGET] Invalid \""@ + ie + "\" target "@ + target
            + " defined for '"@ + key + "' in the package config "@ + pkg_path + "package.json"@
    };
    let m2 = match base {
        Option::Some(b) => m + " imported from "@ + b,
        Option::None => m,
    };
    if rel_error {
        m2 + "; target must start with \"./\""@
    } else {
        m2
    }
}

/// A structurally disallowed "exports"/"imports" target value.
pub fn err_invalid_package_target(
    pkg_path: &str,
    key: &str,
    target: &str,
    is_import: bool,
    maybe_base: Option<&str>,
) -> (e: ResolveError)
    ensures
        e@.kind == ErrorKind::InvalidPackageTarget,
        e@.message == msg_invalid_package_target(
            pkg_path@,
            key@,
            target@,
            is_import,
            opt_view(maybe_base),
        ),
{
    let rel_error = !is_import && target.unicode_len() > 0 && !crate::strings::has_dot_slash(
        target,
    );
    let mut m: String;
    if str_eq(key, ".") {
        m = concat2("[ERR_INVALID_PACKAGE_TARGET] Invalid \"exports\" main target ", target);
        m.append(" defined in the package config ");
        m.append(pkg_path);
        m.append("package.json");
    } else {
        m = concat2("[ERR_INVALID_PACKAGE_TARGET] Invalid \"", if is_import {
            "imports"
        } else {
            "exports"
        });
        m.append("\" target ");
        m.append(target);
        m.append(" defined for '");
        m.append(key);
        m.append("' in the package config ");
        m.append(pkg_path);
        m.append("package.json");
    }
    if let Some(base) = maybe_base {
        m.append(" imported from ");
        m.append(base);
    }
    if rel_error {
        m.append("; target must start with \"./\"");
    }
    proof {
        assert(m@ =~= msg_invalid_package_target(
            pkg_path@,
            key@,
            target@,
            is_import,
            opt_view(maybe_base),
        ));
    }
    ResolveError { kind: ErrorKind::InvalidPackageTarget, message: m }
}

/// Message of an [`ErrorKind::PackagePathNotExported`] error. `pkg_path` is
/// the package directory with a trailing separator.
pub open spec fn msg_package_path_not_exported(
    pkg_path: Seq<char>,
    subpath: Seq<char>,
    base: Option<Seq<char>>,
) -> Seq<char> {
    let m = if subpath == "."@ {
        "[ERR_PACKAGE_PATH_NOT_EXPORTED] No \"exports\" main defined in "@ + pkg_path
            + "package.json"@
    } else {
        "[ERR_PACKAGE_PATH_NOT_EXPORTED] Package subpath '"@ + subpath
            + "' is not defined by \"exports\" in "@ + pkg_path + "package.json"@
    };
    match base {
        Option::Some(b) => m + " imported from "@ + b,
        Option::None => m,
    }
}

/// A valid subpath request with no matching exports entry.
pub fn err_package_path_not_exported(pkg_path: &str, subpath: &str, maybe_base: Option<&str>) -> (e:
    ResolveError)
    ensures
        e@.kind == ErrorKind::PackagePathNotExported,
        e@.message == msg_package_path_not_exported(pkg_path@, subpath@, opt_view(maybe_base)),
{
    let mut m: String;
    if str_eq(subpath, ".") {
        m = concat2("[ERR_PACKAGE_PATH_NOT_EXPORTED] No \"exports\" main defined in ", pkg_path);
        m.append("package.json");
    } else {
        m = concat2("[ERR_PACKAGE_PATH_NOT_EXPORTED] Package subpath '", subpath);
        m.append("' is not defined by \"exports\" in ");
        m.append(pkg_path);
        m.append("package.json");
    }
    if let Some(base) = maybe_base {
        m.append(" imported from ");
        m.append(base);
    }
    proof {
        assert(m@ =~= msg_package_path_not_exported(pkg_path@, subpath@, opt_view(maybe_base)));
    }
    ResolveError { kind: ErrorKind::PackagePathNotExported, message: m }
}

/// Message of an [`ErrorKind::PackageImportNotDefined`] error.
pub open spec fn msg_package_import_not_defined(
    specifier: Seq<char>,
    package_path: Option<Seq<char>>,
    base: Seq<char>,
) -> Seq<char> {
    let m = "[ERR_PACKAGE_IMPORT_NOT_DEFINED] Package import specifier \""@ + specifier
        + "\" is not defined in"@;
    let m2 = match package_path {
        Option::Some(p) => m + " in package "@ + p + "package.json"@,
        Option::None => m,
    };
    m2 + " imported from "@ + base
}

/// A valid `#name` request with no matching imports entry.
pub fn err_package_import_not_defined(
    specifier: &str,
    maybe_package_path: Option<&str>,
    base: &str,
) -> (e: ResolveError)
    ensures
        e@.kind == ErrorKind::PackageImportNotDefined,
        e@.message == msg_package_import_not_defined(
            specifier@,
            opt_view(maybe_package_path),
            base@,
        ),
{
    let mut m = concat2(
        "[ERR_PACKAGE_IMPORT_NOT_DEFINED] Package import specifier \"",
        specifier,
    );
    m.append("\" is not defined in");
    if let Some(p) = maybe_package_path {
        m.append(" in package ");
        m.append(p);
        m.append("package.json");
    }
    m.append(" imported from ");
    m.append(base);
    proof {
        assert(m@ =~= msg_package_import_not_defined(
            specifier@,
            opt_view(maybe_package_path),
            base@,
        ));
    }
    ResolveError { kind: ErrorKind::PackageImportNotDefined, message: m }
}

} // verus!
