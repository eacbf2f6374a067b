//! Bare-specifier package resolution: the self-reference check, the walk of
//! the referrer's ancestors testing `node_modules/<name>/package.json`, and
//! the dispatch into exports resolution or the legacy fallbacks.

use vstd::prelude::*;
use vstd::string::*;
use crate::errors::{msg_invalid_module_specifier, msg_invalid_package_config, msg_not_found,
    not_found, ErrorKind, SpecErr};
use crate::exports::{package_exports_resolve, spec_exports_resolve};
use crate::fs::{fs_stat, spec_stat, Fs, FsKind};
use crate::json::JsonValue;
use crate::legacy::{legacy_main_resolve, spec_legacy_main};
use crate::outcome::{outcome_matches, Outcome, SpecOutcome};
use crate::package_json::{get_package_scope_config, spec_config_exports, spec_config_main,
    spec_config_name, spec_load, spec_mixed_keys_reason, spec_scope_config, ConfigStep,
    PackageJson, SpecConfigStep, SpecLoad};
use crate::parse_specifier::{parse_package_name, spec_parse_specifier};
use crate::strings::{concat2, join_rel, parent_dir, spec_join, spec_parent_dir, str_eq};

verus! {

/// Mathematical image of [`file_extension_probe`]: the path as given if
/// anything exists there, else the same path with `.js` appended, else
/// `ModuleNotFound` naming the appended path.
pub open spec fn spec_probe(p: Seq<char>, referrer: Seq<char>, fs: Fs) -> SpecOutcome {
    match spec_stat(fs, p) {
        Option::None => SpecOutcome::NeedStat(p),
        Option::Some(FsKind::Missing) => {
            let pjs = p + ".js"@;
            match spec_stat(fs, pjs) {
                Option::None => SpecOutcome::NeedStat(pjs),
                Option::Some(FsKind::Missing) => SpecOutcome::Failed(
                    SpecErr { kind: ErrorKind::ModuleNotFound, message: msg_not_found(pjs, referrer) },
                ),
                Option::Some(_) => SpecOutcome::Resolved(pjs),
            }
        },
        Option::Some(_) => SpecOutcome::Resolved(p),
    }
}

/// Probe a path as given, then with a `.js` extension appended, per
/// [`spec_probe`].
pub fn file_extension_probe(p: &str, referrer: &str, fs: &Fs) -> (r: Outcome)
    ensures
        outcome_matches(r, spec_probe(p@, referrer@, *fs)),
{
    match fs_stat(fs, p) {
        None => Outcome::NeedStat(p.to_owned()),
        Some(FsKind::Missing) => {
            let pjs = concat2(p, ".js");
            match fs_stat(fs, pjs.as_str()) {
                None => Outcome::NeedStat(pjs),
                Some(FsKind::Missing) => {
                    let e = not_found(pjs.as_str(), referrer);
                    Outcome::Failed(e)
                },
                Some(_) => Outcome::Resolved(pjs),
            }
        },
        Some(_) => Outcome::Resolved(p.to_owned()),
    }
}

/// Mathematical image of [`old_subpath_resolve`]: with no "exports" field, a
/// subpath other than `.` is a direct join under the package directory — an
/// existing directory gets `index.js` appended, anything else is probed with
/// and without a `.js` extension.
pub open spec fn spec_old_subpath(
    module_dir: Seq<char>,
    subpath: Seq<char>,
    referrer: Seq<char>,
    fs: Fs,
) -> SpecOutcome {
    let d = spec_join(module_dir, subpath);
    match spec_stat(fs, d) {
        Option::None => SpecOutcome::NeedStat(d),
        Option::Some(FsKind::Dir) => SpecOutcome::Resolved(spec_join(d, "index.js"@)),
        Option::Some(_) => spec_probe(d, referrer, fs),
    }
}

/// Resolve a package subpath without an "exports" field, per
/// [`spec_old_subpath`].
fn old_subpath_resolve(module_dir: &str, subpath: &str, referrer: &str, fs: &Fs) -> (r: Outcome)
    ensures
        outcome_matches(r, spec_old_subpath(module_dir@, subpath@, referrer@, *fs)),
{
    let d = join_rel(module_dir, subpath);
    match fs_stat(fs, d.as_str()) {
        None => Outcome::NeedStat(d),
        Some(FsKind::Dir) => Outcome::Resolved(join_rel(d.as_str(), "index.js")),
        Some(_) => file_extension_probe(d.as_str(), referrer, fs),
    }
}

/// Mathematical image of one found package: dispatch on its config, per step
/// four of the orchestrator — "exports" wins, else the legacy main for `.`,
/// else the direct subpath join.
pub open spec fn spec_found_package(
    package_json_path: Seq<char>,
    root: Option<Vec<(String, JsonValue)>>,
    subpath: Seq<char>,
    base: Seq<char>,
    conds: Seq<String>,
    fs: Fs,
    fuel: nat,
) -> SpecOutcome
    decreases fuel, 5int, JsonValue::Null, 0int, 0int,
{
    let module_dir = spec_parent_dir(package_json_path);
    match spec_config_exports(root) {
        Option::Some(ex) => spec_exports_resolve(
            package_json_path,
            subpath,
            ex,
            base,
            conds,
            fs,
            fuel,
        ),
        Option::None => if subpath == "."@ {
            spec_legacy_main(module_dir, spec_config_main(root), base, fs)
        } else {
            spec_old_subpath(module_dir, subpath, base, fs)
        },
    }
}

/// The candidate `package.json` of package `name` under an ancestor's
/// `node_modules`.
pub open spec fn spec_package_json_candidate(dir: Seq<char>, name: Seq<char>) -> Seq<char> {
    spec_join(spec_join(spec_join(dir, "node_modules"@), name), "package.json"@)
}

/// Mathematical image of the `node_modules` walk from directory `dir` upward:
/// the first ancestor whose `node_modules/<name>/package.json` reads wins the
/// package; a malformed winner is a hard error; running out of ancestors is
/// `ModuleNotFound` for the specifier.
pub open spec fn spec_walk_ancestors(
    dir: Seq<char>,
    name: Seq<char>,
    subpath: Seq<char>,
    specifier: Seq<char>,
    base: Seq<char>,
    conds: Seq<String>,
    fs: Fs,
    fuel: nat,
) -> SpecOutcome
    decreases fuel, 6int, JsonValue::Null, dir.len() as int, 0int,
{
    let package_json_path = spec_package_json_candidate(dir, name);
    match crate::fs::spec_read(fs, package_json_path) {
        Option::None => SpecOutcome::NeedRead(package_json_path),
        Option::Some(Option::Some(text)) => match spec_load(text@) {
            SpecLoad::Loaded(root) => spec_found_package(
                package_json_path,
                root,
                subpath,
                base,
                conds,
                fs,
                fuel,
            ),
            SpecLoad::BadJson => SpecOutcome::Failed(
                SpecErr {
                    kind: ErrorKind::InvalidPackageConfig,
                    message: msg_invalid_package_config(
                        package_json_path,
                        Option::None,
                        Option::Some("malformed package.json"@),
                    ),
                },
            ),
            SpecLoad::MixedKeys => SpecOutcome::Failed(
                SpecErr {
                    kind: ErrorKind::InvalidPackageConfig,
                    message: msg_invalid_package_config(
                        package_json_path,
                        Option::None,
                        Option::Some(spec_mixed_keys_reason()),
                    ),
                },
            ),
        },
        Option::Some(Option::None) => {
            let parent = spec_parent_dir(dir);
            if parent.len() < dir.len() {
                spec_walk_ancestors(parent, name, subpath, specifier, base, conds, fs, fuel)
            } else {
                SpecOutcome::Failed(
                    SpecErr { kind: ErrorKind::ModuleNotFound, message: msg_not_found(specifier, base) },
                )
            }
        },
    }
}

/// Mathematical image of [`package_resolve`]: split the bare specifier, check
/// the referrer's own package for a self-reference (a matching declared name
/// with a non-null "exports"), else walk the referrer's ancestors.
pub open spec fn spec_package_resolve(
    specifier: Seq<char>,
    base: Seq<char>,
    conds: Seq<String>,
    fs: Fs,
    fuel: nat,
) -> SpecOutcome
    decreases fuel, 7int, JsonValue::Null, 0int, 0int,
{
    match spec_parse_specifier(specifier) {
        Option::None => SpecOutcome::Failed(
            SpecErr {
                kind: ErrorKind::InvalidModuleSpecifier,
                message: msg_invalid_module_specifier(
                    specifier,
                    "is not a valid package name"@,
                    Option::Some(base),
                ),
            },
        ),
        Option::Some(pair) => match spec_scope_config(base, fs) {
            SpecConfigStep::NeedRead(p) => SpecOutcome::NeedRead(p),
            SpecConfigStep::Failed(e) => SpecOutcome::Failed(e),
            SpecConfigStep::Found(cfg) => {
                let self_ref = cfg.exists && match spec_config_name(cfg.root) {
                    Option::Some(n) => n@ == pair.0,
                    Option::None => false,
                };
                match spec_config_exports(cfg.root) {
                    Option::Some(ex) => if self_ref && !(ex is Null) {
                        spec_exports_resolve(cfg.path, pair.1, ex, base, conds, fs, fuel)
                    } else {
                        spec_walk_ancestors(base, pair.0, pair.1, specifier, base, conds, fs, fuel)
                    },
                    Option::None => spec_walk_ancestors(
                        base,
                        pair.0,
                        pair.1,
                        specifier,
                        base,
                        conds,
                        fs,
                        fuel,
                    ),
                }
            },
        },
    }
}

/// Dispatch on one found package's config (see [`spec_found_package`]).
fn found_package(
    pkg: &PackageJson,
    subpath: &str,
    base: &str,
    conditions: &Vec<String>,
    fs: &Fs,
    fuel: u32,
) -> (r: Outcome)
    ensures
        outcome_matches(
            r,
            spec_found_package(
                pkg.path@,
                pkg.root,
                subpath@,
                base@,
                conditions@,
                *fs,
                fuel as nat,
            ),
        ),
    decreases fuel, 5int, JsonValue::Null, 0int, 0int,
{
    let module_dir = parent_dir(pkg.path.as_str());
    match pkg.exports() {
        Some(ex) => package_exports_resolve(
            pkg.path.as_str(),
            subpath,
            ex,
            base,
            conditions,
            fs,
            fuel,
        ),
        None => {
            if str_eq(subpath, ".") {
                legacy_main_resolve(module_dir, pkg.main(), base, fs)
            } else {
                old_subpath_resolve(module_dir, subpath, base, fs)
            }
        },
    }
}

/// Walk the referrer's ancestors for `node_modules/<name>/package.json` (see
/// [`spec_walk_ancestors`]).
fn walk_ancestors(
    dir: &str,
    name: &str,
    subpath: &str,
    specifier: &str,
    base: &str,
    conditions: &Vec<String>,
    fs: &Fs,
    fuel: u32,
) -> (r: Outcome)
    ensures
        outcome_matches(
            r,
            spec_walk_ancestors(
                dir@,
                name@,
                subpath@,
                specifier@,
                base@,
                conditions@,
                *fs,
                fuel as nat,
            ),
        ),
    decreases fuel, 6int, JsonValue::Null, dir@.len() as int, 0int,
{
    let in_modules = join_rel(dir, "node_modules");
    let module_dir = join_rel(in_modules.as_str(), name);
    let package_json_path = join_rel(module_dir.as_str(), "package.json");
    match crate::fs::fs_read(fs, package_json_path.as_str()) {
        None => Outcome::NeedRead(package_json_path),
        Some(Some(text)) => match PackageJson::load(package_json_path, text.as_str()) {
            Ok(pkg) => found_package(&pkg, subpath, base, conditions, fs, fuel),
            Err(e) => Outcome::Failed(e),
        },
        Some(None) => {
            let parent = parent_dir(dir);
            if parent.unicode_len() < dir.unicode_len() {
                walk_ancestors(parent, name, subpath, specifier, base, conditions, fs, fuel)
            } else {
                Outcome::Failed(not_found(specifier, base))
            }
        },
    }
}

/// Resolve a bare specifier to a file of an installed package, per
/// [`spec_package_resolve`].
pub fn package_resolve(
    specifier: &str,
    base: &str,
    conditions: &Vec<String>,
    fs: &Fs,
    fuel: u32,
) -> (r: Outcome)
    ensures
        outcome_matches(
            r,
            spec_package_resolve(specifier@, base@, conditions@, *fs, fuel as nat),
        ),
    decreases fuel, 7int, JsonValue::Null, 0int, 0int,
{
    let parsed = match parse_package_name(specifier, base) {
        Ok(t) => t,
        Err(e) => {
            return Outcome::Failed(e);
        },
    };
    let name = parsed.0;
    let subpath = parsed.1;
    match get_package_scope_config(base, fs) {
        ConfigStep::NeedRead(p) => Outcome::NeedRead(p),
        ConfigStep::Failed(e) => Outcome::Failed(e),
        ConfigStep::Found(cfg) => {
            let self_ref = cfg.exists && match cfg.name() {
                Some(n) => str_eq(n.as_str(), name.as_str()),
                None => false,
            };
            match cfg.exports() {
                Some(ex) => {
                    let ex_null = match ex {
                        JsonValue::Null => true,
                        _ => false,
                    };
                    if self_ref && !ex_null {
                        package_exports_resolve(
                            cfg.path.as_str(),
                            subpath.as_str(),
                            ex,
                            base,
                            conditions,
                            fs,
                            fuel,
                        )
                    } else {
                        walk_ancestors(
                            base,
                            name.as_str(),
                            subpath.as_str(),
                            specifier,
                            base,
                            conditions,
                            fs,
                            fuel,
                        )
                    }
                },
                None => walk_ancestors(
                    base,
                    name.as_str(),
                    subpath.as_str(),
                    specifier,
                    base,
                    conditions,
                    fs,
                    fuel,
                ),
            }
        },
    }
}

} // verus!
