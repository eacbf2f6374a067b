//! Resolving an internal `#name` specifier through the governing package's
//! "imports" map.

use vstd::prelude::*;
use vstd::string::*;
use crate::errors::{err_invalid_module_specifier, err_package_import_not_defined,
    msg_invalid_module_specifier, msg_package_import_not_defined, ErrorKind, SpecErr};
use crate::exports::{resolve_package_target, spec_pkg_dir_slash, spec_resolve_target};
use crate::fs::Fs;
use crate::json::{obj_get, spec_obj_get};
use crate::outcome::{outcome_matches, Outcome, SpecOutcome, SpecTargetStep, TargetStep};
use crate::package_json::{get_package_scope_config, spec_config_imports, spec_scope_config,
    ConfigStep, SpecConfigStep};
use crate::pattern::{best_match, spec_best_match, spec_pattern_capture};
use crate::strings::{contains_char, ends_slash, idx_of, spec_ends_slash, str_eq};

verus! {

/// The error for a `#name` with no matching imports entry; `package_path` is
/// the governing package's directory with a trailing separator, where one
/// governs.
pub open spec fn spec_err_import_not_defined(
    name: Seq<char>,
    package_path: Option<Seq<char>>,
    base: Seq<char>,
) -> SpecErr {
    SpecErr {
        kind: ErrorKind::PackageImportNotDefined,
        message: msg_package_import_not_defined(name, package_path, base),
    }
}

/// The error for a malformed internal specifier.
pub open spec fn spec_err_bad_internal(name: Seq<char>, base: Seq<char>) -> SpecErr {
    SpecErr {
        kind: ErrorKind::InvalidModuleSpecifier,
        message: msg_invalid_module_specifier(
            name,
            "is not a valid internal imports specifier name"@,
            Option::Some(base),
        ),
    }
}

/// Lift a target step to an outcome, turning a miss into the
/// import-not-defined error.
pub open spec fn spec_imports_outcome(
    step: SpecTargetStep,
    name: Seq<char>,
    package_path: Option<Seq<char>>,
    base: Seq<char>,
) -> SpecOutcome {
    match step {
        SpecTargetStep::Hit(p) => SpecOutcome::Resolved(p),
        SpecTargetStep::Miss => SpecOutcome::Failed(
            spec_err_import_not_defined(name, package_path, base),
        ),
        SpecTargetStep::Failed(e) => SpecOutcome::Failed(e),
        SpecTargetStep::NeedStat(p) => SpecOutcome::NeedStat(p),
        SpecTargetStep::NeedRead(p) => SpecOutcome::NeedRead(p),
    }
}

/// Mathematical image of [`package_imports_resolve`]: reject the malformed
/// internal names, find the governing package, and resolve the name through
/// its "imports" map — an exact key (without `*`) directly, else through the
/// pattern matcher; anything else is import-not-defined.
pub open spec fn spec_imports_resolve(
    name: Seq<char>,
    referrer: Seq<char>,
    conds: Seq<String>,
    fs: Fs,
    fuel: nat,
) -> SpecOutcome {
    if name == "#"@ || (name.len() >= 2 && name[0] == '#' && name[1] == '/') || spec_ends_slash(
        name,
    ) {
        SpecOutcome::Failed(spec_err_bad_internal(name, referrer))
    } else {
        match spec_scope_config(referrer, fs) {
            SpecConfigStep::NeedRead(p) => SpecOutcome::NeedRead(p),
            SpecConfigStep::Failed(e) => SpecOutcome::Failed(e),
            SpecConfigStep::Found(cfg) => if !cfg.exists {
                SpecOutcome::Failed(spec_err_import_not_defined(name, Option::None, referrer))
            } else {
                let pkg_path = Option::Some(spec_pkg_dir_slash(cfg.path));
                match spec_config_imports(cfg.root) {
                    Option::None => SpecOutcome::Failed(
                        spec_err_import_not_defined(name, pkg_path, referrer),
                    ),
                    Option::Some(imports) => {
                        let exact = spec_obj_get(imports@, name);
                        if exact is Some && idx_of(name, 0, '*') is None {
                            match exact {
                                Option::Some(target) => spec_imports_outcome(
                                    spec_resolve_target(
                                        cfg.path,
                                        target,
                                        ""@,
                                        name,
                                        referrer,
                                        false,
                                        true,
                                        conds,
                                        fs,
                                        fuel,
                                    ),
                                    name,
                                    pkg_path,
                                    referrer,
                                ),
                                Option::None => SpecOutcome::Failed(
                                    spec_err_import_not_defined(name, pkg_path, referrer),
                                ),
                            }
                        } else {
                            match spec_best_match(imports@, name) {
                                Option::Some(key) => match spec_obj_get(imports@, key@) {
                                    Option::Some(target) => spec_imports_outcome(
                                        spec_resolve_target(
                                            cfg.path,
                                            target,
                                            spec_pattern_capture(key@, name),
                                            key@,
                                            referrer,
                                            true,
                                            true,
                                            conds,
                                            fs,
                                            fuel,
                                        ),
                                        name,
                                        pkg_path,
                                        referrer,
                                    ),
                                    Option::None => SpecOutcome::Failed(
                                        spec_err_import_not_defined(name, pkg_path, referrer),
                                    ),
                                },
                                Option::None => SpecOutcome::Failed(
                                    spec_err_import_not_defined(name, pkg_path, referrer),
                                ),
                            }
                        }
                    },
                }
            },
        }
    }
}

/// Lift a target step as [`spec_imports_outcome`] does.
fn imports_outcome(
    step: TargetStep,
    name: &str,
    package_path: Option<&str>,
    base: &str,
) -> (r: Outcome)
    ensures
        forall|g: SpecTargetStep|
            crate::outcome::target_step_matches(step, g) ==> outcome_matches(
                r,
                spec_imports_outcome(g, name@, crate::errors::opt_view(package_path), base@),
            ),
{
    match step {
        TargetStep::Hit(p) => Outcome::Resolved(p),
        TargetStep::Miss => Outcome::Failed(
            err_package_import_not_defined(name, package_path, base),
        ),
        TargetStep::Failed(e) => Outcome::Failed(e),
        TargetStep::NeedStat(p) => Outcome::NeedStat(p),
        TargetStep::NeedRead(p) => Outcome::NeedRead(p),
    }
}

/// Resolve an internal `#name` specifier through the governing package's
/// "imports" map, per [`spec_imports_resolve`].
pub fn package_imports_resolve(
    name: &str,
    referrer: &str,
    conditions: &Vec<String>,
    fs: &Fs,
    fuel: u32,
) -> (r: Outcome)
    ensures
        outcome_matches(
            r,
            spec_imports_resolve(name@, referrer@, conditions@, *fs, fuel as nat),
        ),
{
    let bad = str_eq(name, "#") || (name.unicode_len() >= 2 && name.get_char(0) == '#'
        && name.get_char(1) == '/') || ends_slash(name);
    if bad {
        return Outcome::Failed(
            err_invalid_module_specifier(
                name,
                "is not a valid internal imports specifier name",
                Some(referrer),
            ),
        );
    }
    match get_package_scope_config(referrer, fs) {
        ConfigStep::NeedRead(p) => Outcome::NeedRead(p),
        ConfigStep::Failed(e) => Outcome::Failed(e),
        ConfigStep::Found(cfg) => {
            if !cfg.exists {
                return Outcome::Failed(err_package_import_not_defined(name, None, referrer));
            }
            let pkg_path = crate::exports::pkg_dir_slash(cfg.path.as_str());
            match cfg.imports() {
                None => Outcome::Failed(
                    err_package_import_not_defined(name, Some(pkg_path.as_str()), referrer),
                ),
                Some(imports) => {
                    let exact = obj_get(imports, name);
                    if exact.is_some() && !contains_char(name, '*') {
                        match exact {
                            Some(target) => {
                                let step = resolve_package_target(
                                    cfg.path.as_str(),
                                    target,
                                    "",
                                    name,
                                    referrer,
                                    false,
                                    true,
                                    conditions,
                                    fs,
                                    fuel,
                                );
                                imports_outcome(step, name, Some(pkg_path.as_str()), referrer)
                            },
                            None => Outcome::Failed(
                                err_package_import_not_defined(
                                    name,
                                    Some(pkg_path.as_str()),
                                    referrer,
                                ),
                            ),
                        }
                    } else {
                        match best_match(imports, name) {
                            Some(key_capture) => match obj_get(imports, key_capture.0.as_str()) {
                                Some(target) => {
                                    let step = resolve_package_target(
                                        cfg.path.as_str(),
                                        target,
                                        key_capture.1.as_str(),
                                        key_capture.0.as_str(),
                                        referrer,
                                        true,
                                        true,
                                        conditions,
                                        fs,
                                        fuel,
                                    );
                                    imports_outcome(step, name, Some(pkg_path.as_str()), referrer)
                                },
                                None => Outcome::Failed(
                                    err_package_import_not_defined(
                                        name,
                                        Some(pkg_path.as_str()),
                                        referrer,
                                    ),
                                ),
                            },
                            None => Outcome::Failed(
                                err_package_import_not_defined(
                                    name,
                                    Some(pkg_path.as_str()),
                                    referrer,
                                ),
                            ),
                        }
                    }
                },
            }
        },
    }
}

} // verus!
