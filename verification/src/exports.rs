//! Resolving a package subpath through an "exports"/"imports" tree: the
//! string-target rules (pattern substitution, traversal guard, package-root
//! escape check, bare re-entry), the tree walk over lists and condition
//! objects, and the exports resolver with exact-key and pattern matching.

use vstd::prelude::*;
use vstd::string::*;
use crate::errors::{err_invalid_module_specifier, err_invalid_package_config,
    err_invalid_package_target, err_package_path_not_exported, msg_invalid_module_specifier,
    msg_invalid_package_target, msg_not_found, msg_package_path_not_exported, not_found, ErrorKind,
    ResolveError, SpecErr};
use crate::fs::Fs;
use crate::json::{obj_get, spec_obj_get, JsonValue};
use crate::outcome::{outcome_matches, target_step_matches, Outcome, SpecOutcome, SpecTargetStep,
    TargetStep};
use crate::package_json::{all_dotted_keys, has_mixed_keys, mixed_keys_reason, spec_all_dotted,
    spec_mixed_keys, spec_mixed_keys_reason};
use crate::pattern::{best_match, spec_best_match, spec_pattern_capture};
use crate::resolve::{package_resolve, spec_package_resolve};
use crate::strings::{concat2, contains_char, ends_slash, has_dot_slash, has_dotdot_slash, idx_of,
    join_rel, parent_dir, replace_star, spec_ends_slash, spec_has_dot_slash,
    spec_has_dotdot_slash, spec_has_invalid_segment, spec_join, spec_parent_dir,
    spec_replace_star, spec_starts_with, starts_with_str, str_eq, has_invalid_segment};

verus! {

/// The package directory with a trailing separator, as the error messages
/// print it before `package.json`.
pub open spec fn spec_pkg_dir_slash(package_json_path: Seq<char>) -> Seq<char> {
    spec_parent_dir(package_json_path) + "/"@
}

pub fn pkg_dir_slash(package_json_path: &str) -> (r: String)
    ensures
        r@ == spec_pkg_dir_slash(package_json_path@),
{
    concat2(parent_dir(package_json_path), "/")
}

/// The error for a structurally disallowed target.
pub open spec fn spec_err_invalid_target(
    package_json_path: Seq<char>,
    key: Seq<char>,
    target: Seq<char>,
    internal: bool,
    base: Seq<char>,
) -> SpecErr {
    SpecErr {
        kind: ErrorKind::InvalidPackageTarget,
        message: msg_invalid_package_target(
            spec_pkg_dir_slash(package_json_path),
            key,
            target,
            internal,
            Option::Some(base),
        ),
    }
}

/// Build the invalid-target error.
pub fn throw_invalid_package_target(
    key: &str,
    target: &str,
    package_json_path: &str,
    internal: bool,
    base: &str,
) -> (e: ResolveError)
    ensures
        e.kind == ErrorKind::InvalidPackageTarget,
        e.message@ == spec_err_invalid_target(
            package_json_path@,
            key@,
            target@,
            internal,
            base@,
        ).message,
{
    let dir = pkg_dir_slash(package_json_path);
    err_invalid_package_target(dir.as_str(), key, target, internal, Some(base))
}

/// The error for a subpath with no matching exports entry.
pub open spec fn spec_err_not_exported(
    package_json_path: Seq<char>,
    subpath: Seq<char>,
    base: Seq<char>,
) -> SpecErr {
    SpecErr {
        kind: ErrorKind::PackagePathNotExported,
        message: msg_package_path_not_exported(
            spec_pkg_dir_slash(package_json_path),
            subpath,
            Option::Some(base),
        ),
    }
}

/// Build the not-exported error.
pub fn throw_exports_not_found(subpath: &str, package_json_path: &str, base: &str) -> (e:
    ResolveError)
    ensures
        e.kind == ErrorKind::PackagePathNotExported,
        e.message@ == spec_err_not_exported(package_json_path@, subpath@, base@).message,
{
    let dir = pkg_dir_slash(package_json_path);
    err_package_path_not_exported(dir.as_str(), subpath, Some(base))
}

/// The reason text for a request whose appended subpath holds a traversal
/// segment.
pub open spec fn spec_invalid_subpath_reason(internal: bool, package_json_path: Seq<char>) -> Seq<
    char,
> {
    let ie = if internal {
        "imports"@
    } else {
        "exports"@
    };
    "request is not a valid subpath for the \""@ + ie + "\" resolution of \""@ + package_json_path
        + "\""@
}

/// The error for a request whose appended subpath holds a traversal segment.
pub open spec fn spec_err_invalid_subpath(
    request: Seq<char>,
    package_json_path: Seq<char>,
    internal: bool,
    base: Seq<char>,
) -> SpecErr {
    SpecErr {
        kind: ErrorKind::InvalidModuleSpecifier,
        message: msg_invalid_module_specifier(
            request,
            spec_invalid_subpath_reason(internal, package_json_path),
            Option::Some(base),
        ),
    }
}

/// Build the invalid-subpath error.
pub fn throw_invalid_subpath(
    request: &str,
    package_json_path: &str,
    internal: bool,
    base: &str,
) -> (e: ResolveError)
    ensures
        e.kind == ErrorKind::InvalidModuleSpecifier,
        e.message@ == spec_err_invalid_subpath(request@, package_json_path@, internal, base@).message,
{
    let mut reason = concat2("request is not a valid subpath for the \"", if internal {
        "imports"
    } else {
        "exports"
    });
    reason.append("\" resolution of \"");
    reason.append(package_json_path);
    reason.append("\"");
    proof {
        assert(reason@ =~= spec_invalid_subpath_reason(internal, package_json_path@));
    }
    err_invalid_module_specifier(request, reason.as_str(), Some(base))
}

/// A condition key is active: it is `default`, or among the caller's
/// conditions.
pub open spec fn spec_cond_matches(conds: Seq<String>, key: Seq<char>) -> bool {
    key == "default"@ || exists|i: int| 0 <= i < conds.len() && conds[i]@ == key
}

/// Whether a condition key is active (see [`spec_cond_matches`]).
pub fn cond_matches(conds: &Vec<String>, key: &str) -> (r: bool)
    ensures
        r == spec_cond_matches(conds@, key@),
{
    if str_eq(key, "default") {
        return true;
    }
    let n = conds.len();
    let mut i: usize = 0;
    while i < n
        invariant
            i <= n,
            n == conds@.len(),
            forall|j: int| 0 <= j < i ==> conds@[j]@ != key@,
        decreases n - i,
    {
        if str_eq(conds[i].as_str(), key) {
            return true;
        }
        i += 1;
    }
    false
}

/// Mathematical image of [`resolve_package_target_string`]: the rules for one
/// literal string target. In pattern mode every `*` in the target is first
/// replaced by the captured fill. A target under `./` must hold no traversal
/// segment and must stay under the package directory; any other target is a
/// bare package re-entry for internal resolution and invalid otherwise.
pub open spec fn spec_target_string(
    package_json_path: Seq<char>,
    target: Seq<char>,
    fill: Seq<char>,
    match_key: Seq<char>,
    base: Seq<char>,
    pattern: bool,
    internal: bool,
    conds: Seq<String>,
    fs: Fs,
    fuel: nat,
) -> SpecTargetStep
    decreases fuel, 1int, JsonValue::Null, 0int, 0int,
{
    let t = if pattern {
        spec_replace_star(target, fill)
    } else {
        target
    };
    if !internal && !pattern && fill.len() > 0 && !spec_ends_slash(target) {
        SpecTargetStep::Failed(
            spec_err_invalid_target(package_json_path, match_key, target, internal, base),
        )
    } else if spec_has_dot_slash(t) {
        let rest = t.subrange(2, t.len() as int);
        if spec_has_invalid_segment(rest) {
            SpecTargetStep::Failed(
                spec_err_invalid_target(package_json_path, match_key, target, internal, base),
            )
        } else {
            let pkg_dir = spec_parent_dir(package_json_path);
            let resolved = spec_join(pkg_dir, rest);
            if !(resolved == pkg_dir || spec_starts_with(resolved, pkg_dir + "/"@)) {
                SpecTargetStep::Failed(
                    spec_err_invalid_target(package_json_path, match_key, target, internal, base),
                )
            } else if pattern || fill.len() == 0 {
                SpecTargetStep::Hit(resolved)
            } else if spec_has_invalid_segment(fill) {
                SpecTargetStep::Failed(
                    spec_err_invalid_subpath(match_key + fill, package_json_path, internal, base),
                )
            } else {
                SpecTargetStep::Hit(spec_join(resolved, fill))
            }
        }
    } else if internal && !spec_has_dotdot_slash(t) && !(t.len() >= 1 && t[0] == '/') {
        let export_target = if pattern {
            t
        } else {
            t + fill
        };
        if fuel == 0 {
            SpecTargetStep::Failed(
                SpecErr {
                    kind: ErrorKind::ModuleNotFound,
                    message: msg_not_found(export_target, package_json_path),
                },
            )
        } else {
            match spec_package_resolve(export_target, package_json_path, conds, fs, (fuel - 1) as nat) {
                SpecOutcome::Resolved(p) => SpecTargetStep::Hit(p),
                SpecOutcome::Failed(e) => SpecTargetStep::Failed(e),
                SpecOutcome::NeedStat(p) => SpecTargetStep::NeedStat(p),
                SpecOutcome::NeedRead(p) => SpecTargetStep::NeedRead(p),
            }
        }
    } else {
        SpecTargetStep::Failed(
            spec_err_invalid_target(package_json_path, match_key, target, internal, base),
        )
    }
}

/// Resolve one literal string target, per [`spec_target_string`].
pub fn resolve_package_target_string(
    package_json_path: &str,
    target: &str,
    fill: &str,
    match_key: &str,
    base: &str,
    pattern: bool,
    internal: bool,
    conditions: &Vec<String>,
    fs: &Fs,
    fuel: u32,
) -> (r: TargetStep)
    ensures
        target_step_matches(
            r,
            spec_target_string(
                package_json_path@,
                target@,
                fill@,
                match_key@,
                base@,
                pattern,
                internal,
                conditions@,
                *fs,
                fuel as nat,
            ),
        ),
    decreases fuel, 1int, JsonValue::Null, 0int, 0int,
{
    let t: String = if pattern {
        replace_star(target, fill)
    } else {
        target.to_owned()
    };
    if !internal && !pattern && fill.unicode_len() > 0 && !ends_slash(target) {
        return TargetStep::Failed(
            throw_invalid_package_target(match_key, target, package_json_path, internal, base),
        );
    }
    if has_dot_slash(t.as_str()) {
        let rest = t.as_str().substring_char(2, t.as_str().unicode_len());
        if has_invalid_segment(rest) {
            return TargetStep::Failed(
                throw_invalid_package_target(match_key, target, package_json_path, internal, base),
            );
        }
        let pkg_dir = parent_dir(package_json_path);
        let resolved = join_rel(pkg_dir, rest);
        let dir_prefix = concat2(pkg_dir, "/");
        if !(str_eq(resolved.as_str(), pkg_dir) || starts_with_str(
            resolved.as_str(),
            dir_prefix.as_str(),
        )) {
            return TargetStep::Failed(
                throw_invalid_package_target(match_key, target, package_json_path, internal, base),
            );
        }
        if pattern || fill.unicode_len() == 0 {
            return TargetStep::Hit(resolved);
        }
        if has_invalid_segment(fill) {
            let request = concat2(match_key, fill);
            return TargetStep::Failed(
                throw_invalid_subpath(request.as_str(), package_json_path, internal, base),
            );
        }
        return TargetStep::Hit(join_rel(resolved.as_str(), fill));
    }
    if internal && !has_dotdot_slash(t.as_str()) && !(t.as_str().unicode_len() >= 1
        && t.as_str().get_char(0) == '/') {
        let export_target: String = if pattern {
            t
        } else {
            concat2(t.as_str(), fill)
        };
        if fuel == 0 {
            return TargetStep::Failed(not_found(export_target.as_str(), package_json_path));
        }
        return match package_resolve(
            export_target.as_str(),
            package_json_path,
            conditions,
            fs,
            fuel - 1,
        ) {
            Outcome::Resolved(p) => TargetStep::Hit(p),
            Outcome::Failed(e) => TargetStep::Failed(e),
            Outcome::NeedStat(p) => TargetStep::NeedStat(p),
            Outcome::NeedRead(p) => TargetStep::NeedRead(p),
        };
    }
    TargetStep::Failed(
        throw_invalid_package_target(match_key, target, package_json_path, internal, base),
    )
}

/// Mathematical image of [`resolve_package_target`]: a string is resolved by
/// [`spec_target_string`]; a list takes its first success, swallowing only
/// invalid-target failures; a condition object takes the first active entry
/// whose value resolves; `null` matches nothing; any other shape is invalid.
pub open spec fn spec_resolve_target(
    package_json_path: Seq<char>,
    target: JsonValue,
    fill: Seq<char>,
    match_key: Seq<char>,
    base: Seq<char>,
    pattern: bool,
    internal: bool,
    conds: Seq<String>,
    fs: Fs,
    fuel: nat,
) -> SpecTargetStep
    decreases fuel, 2int, target, 1int, 0int,
{
    match target {
        JsonValue::Str(s) => spec_target_string(
            package_json_path,
            s@,
            fill,
            match_key,
            base,
            pattern,
            internal,
            conds,
            fs,
            fuel,
        ),
        JsonValue::Arr(items) => if items@.len() == 0 {
            SpecTargetStep::Miss
        } else {
            spec_target_list(
                package_json_path,
                items@,
                0,
                fill,
                match_key,
                base,
                pattern,
                internal,
                conds,
                fs,
                fuel,
            )
        },
        JsonValue::Obj(entries) => spec_target_conds(
            package_json_path,
            entries@,
            0,
            fill,
            match_key,
            base,
            pattern,
            internal,
            conds,
            fs,
            fuel,
        ),
        JsonValue::Null => SpecTargetStep::Miss,
        JsonValue::Bool(b) => SpecTargetStep::Failed(
            spec_err_invalid_target(
                package_json_path,
                match_key,
                if b {
                    "true"@
                } else {
                    "false"@
                },
                internal,
                base,
            ),
        ),
        JsonValue::Number(n) => SpecTargetStep::Failed(
            spec_err_invalid_target(package_json_path, match_key, n@, internal, base),
        ),
    }
}

/// Walk a list target from element `idx` on (see [`spec_resolve_target`]).
pub open spec fn spec_target_list(
    package_json_path: Seq<char>,
    items: Seq<JsonValue>,
    idx: int,
    fill: Seq<char>,
    match_key: Seq<char>,
    base: Seq<char>,
    pattern: bool,
    internal: bool,
    conds: Seq<String>,
    fs: Fs,
    fuel: nat,
) -> SpecTargetStep
    decreases fuel, 2int, items, 0int, items.len() - idx,
{
    if idx < 0 || idx >= items.len() {
        SpecTargetStep::Miss
    } else {
        let r = spec_resolve_target(
            package_json_path,
            items[idx],
            fill,
            match_key,
            base,
            pattern,
            internal,
            conds,
            fs,
            fuel,
        );
        match r {
            SpecTargetStep::Failed(e) => if e.kind == ErrorKind::InvalidPackageTarget {
                spec_target_list(
                    package_json_path,
                    items,
                    idx + 1,
                    fill,
                    match_key,
                    base,
                    pattern,
                    internal,
                    conds,
                    fs,
                    fuel,
                )
            } else {
                r
            },
            SpecTargetStep::Miss => spec_target_list(
                package_json_path,
                items,
                idx + 1,
                fill,
                match_key,
                base,
                pattern,
                internal,
                conds,
                fs,
                fuel,
            ),
            _ => r,
        }
    }
}

/// Walk a condition object from entry `idx` on (see [`spec_resolve_target`]):
/// an inactive key is skipped; an active key whose value misses falls through
/// to the later entries.
pub open spec fn spec_target_conds(
    package_json_path: Seq<char>,
    entries: Seq<(String, JsonValue)>,
    idx: int,
    fill: Seq<char>,
    match_key: Seq<char>,
    base: Seq<char>,
    pattern: bool,
    internal: bool,
    conds: Seq<String>,
    fs: Fs,
    fuel: nat,
) -> SpecTargetStep
    decreases fuel, 2int, entries, 0int, entries.len() - idx,
{
    if idx < 0 || idx >= entries.len() {
        SpecTargetStep::Miss
    } else if spec_cond_matches(conds, entries[idx].0@) {
        let r = spec_resolve_target(
            package_json_path,
            entries[idx].1,
            fill,
            match_key,
            base,
            pattern,
            internal,
            conds,
            fs,
            fuel,
        );
        match r {
            SpecTargetStep::Miss => spec_target_conds(
                package_json_path,
                entries,
                idx + 1,
                fill,
                match_key,
                base,
                pattern,
                internal,
                conds,
                fs,
                fuel,
            ),
            _ => r,
        }
    } else {
        spec_target_conds(
            package_json_path,
            entries,
            idx + 1,
            fill,
            match_key,
            base,
            pattern,
            internal,
            conds,
            fs,
            fuel,
        )
    }
}

/// Resolve one "exports"/"imports" target tree, per [`spec_resolve_target`].
pub fn resolve_package_target(
    package_json_path: &str,
    target: &JsonValue,
    fill: &str,
    match_key: &str,
    base: &str,
    pattern: bool,
    internal: bool,
    conditions: &Vec<String>,
    fs: &Fs,
    fuel: u32,
) -> (r: TargetStep)
    ensures
        target_step_matches(
            r,
            spec_resolve_target(
                package_json_path@,
                *target,
                fill@,
                match_key@,
                base@,
                pattern,
                internal,
                conditions@,
                *fs,
                fuel as nat,
            ),
        ),
    decreases fuel, 2int, *target, 1int, 0int,
{
    match target {
        JsonValue::Str(s) => resolve_package_target_string(
            package_json_path,
            s.as_str(),
            fill,
            match_key,
            base,
            pattern,
            internal,
            conditions,
            fs,
            fuel,
        ),
        JsonValue::Arr(items) => {
            if items.len() == 0 {
                TargetStep::Miss
            } else {
                resolve_target_list(
                    package_json_path,
                    items,
                    0,
                    fill,
                    match_key,
                    base,
                    pattern,
                    internal,
                    conditions,
                    fs,
                    fuel,
                )
            }
        },
        JsonValue::Obj(entries) => resolve_target_conds(
            package_json_path,
            entries,
            0,
            fill,
            match_key,
            base,
            pattern,
            internal,
            conditions,
            fs,
            fuel,
        ),
        JsonValue::Null => TargetStep::Miss,
        JsonValue::Bool(b) => TargetStep::Failed(
            throw_invalid_package_target(match_key, if *b {
                "true"
            } else {
                "false"
            }, package_json_path, internal, base),
        ),
        JsonValue::Number(n) => TargetStep::Failed(
            throw_invalid_package_target(match_key, n.as_str(), package_json_path, internal, base),
        ),
    }
}

/// Walk a list target from element `idx` on (see [`spec_target_list`]).
fn resolve_target_list(
    package_json_path: &str,
    items: &Vec<JsonValue>,
    idx: usize,
    fill: &str,
    match_key: &str,
    base: &str,
    pattern: bool,
    internal: bool,
    conditions: &Vec<String>,
    fs: &Fs,
    fuel: u32,
) -> (r: TargetStep)
    ensures
        target_step_matches(
            r,
            spec_target_list(
                package_json_path@,
                items@,
                idx as int,
                fill@,
                match_key@,
                base@,
                pattern,
                internal,
                conditions@,
                *fs,
                fuel as nat,
            ),
        ),
    decreases fuel, 2int, items@, 0int, items@.len() - idx,
{
    if idx >= items.len() {
        return TargetStep::Miss;
    }
    let r = resolve_package_target(
        package_json_path,
        &items[idx],
        fill,
        match_key,
        base,
        pattern,
        internal,
        conditions,
        fs,
        fuel,
    );
    match r {
        TargetStep::Failed(e) => {
            if e.kind == ErrorKind::InvalidPackageTarget {
                resolve_target_list(
                    package_json_path,
                    items,
                    idx + 1,
                    fill,
                    match_key,
                    base,
                    pattern,
                    internal,
                    conditions,
                    fs,
                    fuel,
                )
            } else {
                TargetStep::Failed(e)
            }
        },
        TargetStep::Miss => resolve_target_list(
            package_json_path,
            items,
            idx + 1,
            fill,
            match_key,
            base,
            pattern,
            internal,
            conditions,
            fs,
            fuel,
        ),
        other => other,
    }
}

/// Walk a condition object from entry `idx` on (see [`spec_target_conds`]).
fn resolve_target_conds(
    package_json_path: &str,
    entries: &Vec<(String, JsonValue)>,
    idx: usize,
    fill: &str,
    match_key: &str,
    base: &str,
    pattern: bool,
    internal: bool,
    conditions: &Vec<String>,
    fs: &Fs,
    fuel: u32,
) -> (r: TargetStep)
    ensures
        target_step_matches(
            r,
            spec_target_conds(
                package_json_path@,
                entries@,
                idx as int,
                fill@,
                match_key@,
                base@,
                pattern,
                internal,
                conditions@,
                *fs,
                fuel as nat,
            ),
        ),
    decreases fuel, 2int, entries@, 0int, entries@.len() - idx,
{
    if idx >= entries.len() {
        return TargetStep::Miss;
    }
    if cond_matches(conditions, entries[idx].0.as_str()) {
        let r = resolve_package_target(
            package_json_path,
            &entries[idx].1,
            fill,
            match_key,
            base,
            pattern,
            internal,
            conditions,
            fs,
            fuel,
        );
        match r {
            TargetStep::Miss => resolve_target_conds(
                package_json_path,
                entries,
                idx + 1,
                fill,
                match_key,
                base,
                pattern,
                internal,
                conditions,
                fs,
                fuel,
            ),
            other => other,
        }
    } else {
        resolve_target_conds(
            package_json_path,
            entries,
            idx + 1,
            fill,
            match_key,
            base,
            pattern,
            internal,
            conditions,
            fs,
            fuel,
        )
    }
}

/// Lift a target step to a resolve outcome, turning a miss into the
/// not-exported error.
pub open spec fn spec_exports_outcome(
    step: SpecTargetStep,
    package_json_path: Seq<char>,
    subpath: Seq<char>,
    base: Seq<char>,
) -> SpecOutcome {
    match step {
        SpecTargetStep::Hit(p) => SpecOutcome::Resolved(p),
        SpecTargetStep::Miss => SpecOutcome::Failed(
            spec_err_not_exported(package_json_path, subpath, base),
        ),
        SpecTargetStep::Failed(e) => SpecOutcome::Failed(e),
        SpecTargetStep::NeedStat(p) => SpecOutcome::NeedStat(p),
        SpecTargetStep::NeedRead(p) => SpecOutcome::NeedRead(p),
    }
}

/// Mathematical image of [`package_exports_resolve`]: an object whose keys
/// all begin with `.` is a subpath map (exact key first, then the pattern
/// matcher); an object with no such key, a string, an array or another leaf
/// is main sugar standing for the `.` subpath; a mixed object is an invalid
/// package config; `null` or no match is not exported.
pub open spec fn spec_exports_resolve(
    package_json_path: Seq<char>,
    package_subpath: Seq<char>,
    exports: JsonValue,
    base: Seq<char>,
    conds: Seq<String>,
    fs: Fs,
    fuel: nat,
) -> SpecOutcome
    decreases fuel, 4int, JsonValue::Null, 0int, 0int,
{
    match exports {
        JsonValue::Obj(entries) => if spec_mixed_keys(entries@) {
            SpecOutcome::Failed(
                SpecErr {
                    kind: ErrorKind::InvalidPackageConfig,
                    message: crate::errors::msg_invalid_package_config(
                        package_json_path,
                        Option::Some(base),
                        Option::Some(spec_mixed_keys_reason()),
                    ),
                },
            )
        } else if spec_all_dotted(entries@) {
            spec_exports_map(
                package_json_path,
                package_subpath,
                entries@,
                base,
                conds,
                fs,
                fuel,
            )
        } else {
            spec_exports_sugar(package_json_path, package_subpath, exports, base, conds, fs, fuel)
        },
        JsonValue::Null => SpecOutcome::Failed(
            spec_err_not_exported(package_json_path, package_subpath, base),
        ),
        _ => spec_exports_sugar(package_json_path, package_subpath, exports, base, conds, fs, fuel),
    }
}

/// Main sugar: the exports value stands for the `.` subpath alone.
pub open spec fn spec_exports_sugar(
    package_json_path: Seq<char>,
    package_subpath: Seq<char>,
    exports: JsonValue,
    base: Seq<char>,
    conds: Seq<String>,
    fs: Fs,
    fuel: nat,
) -> SpecOutcome
    decreases fuel, 3int, JsonValue::Null, 0int, 0int,
{
    if package_subpath == "."@ {
        spec_exports_outcome(
            spec_resolve_target(
                package_json_path,
                exports,
                ""@,
                package_subpath,
                base,
                false,
                false,
                conds,
                fs,
                fuel,
            ),
            package_json_path,
            package_subpath,
            base,
        )
    } else {
        SpecOutcome::Failed(spec_err_not_exported(package_json_path, package_subpath, base))
    }
}

/// A subpath-keyed exports map: an exact key (without `*`, for a subpath not
/// ending in `/`) short-circuits the pattern matcher.
pub open spec fn spec_exports_map(
    package_json_path: Seq<char>,
    package_subpath: Seq<char>,
    entries: Seq<(String, JsonValue)>,
    base: Seq<char>,
    conds: Seq<String>,
    fs: Fs,
    fuel: nat,
) -> SpecOutcome
    decreases fuel, 3int, JsonValue::Null, 0int, 0int,
{
    let exact = spec_obj_get(entries, package_subpath);
    if exact is Some && idx_of(package_subpath, 0, '*') is None && !spec_ends_slash(
        package_subpath,
    ) {
        match exact {
            Option::Some(target) => spec_exports_outcome(
                spec_resolve_target(
                    package_json_path,
                    target,
                    ""@,
                    package_subpath,
                    base,
                    false,
                    false,
                    conds,
                    fs,
                    fuel,
                ),
                package_json_path,
                package_subpath,
                base,
            ),
            Option::None => SpecOutcome::Failed(
                spec_err_not_exported(package_json_path, package_subpath, base),
            ),
        }
    } else {
        match spec_best_match(entries, package_subpath) {
            Option::Some(key) => match spec_obj_get(entries, key@) {
                Option::Some(target) => spec_exports_outcome(
                    spec_resolve_target(
                        package_json_path,
                        target,
                        spec_pattern_capture(key@, package_subpath),
                        key@,
                        base,
                        true,
                        false,
                        conds,
                        fs,
                        fuel,
                    ),
                    package_json_path,
                    package_subpath,
                    base,
                ),
                Option::None => SpecOutcome::Failed(
                    spec_err_not_exported(package_json_path, package_subpath, base),
                ),
            },
            Option::None => SpecOutcome::Failed(
                spec_err_not_exported(package_json_path, package_subpath, base),
            ),
        }
    }
}

/// Lift a target step as [`spec_exports_outcome`] does.
fn exports_outcome(
    step: TargetStep,
    package_json_path: &str,
    subpath: &str,
    base: &str,
) -> (r: Outcome)
    ensures
        forall|g: SpecTargetStep|
            target_step_matches(step, g) ==> outcome_matches(
                r,
                spec_exports_outcome(g, package_json_path@, subpath@, base@),
            ),
{
    match step {
        TargetStep::Hit(p) => Outcome::Resolved(p),
        TargetStep::Miss => Outcome::Failed(
            throw_exports_not_found(subpath, package_json_path, base),
        ),
        TargetStep::Failed(e) => Outcome::Failed(e),
        TargetStep::NeedStat(p) => Outcome::NeedStat(p),
        TargetStep::NeedRead(p) => Outcome::NeedRead(p),
    }
}

/// Resolve a package subpath through a package's "exports" value, per
/// [`spec_exports_resolve`].
pub fn package_exports_resolve(
    package_json_path: &str,
    package_subpath: &str,
    exports: &JsonValue,
    base: &str,
    conditions: &Vec<String>,
    fs: &Fs,
    fuel: u32,
) -> (r: Outcome)
    ensures
        outcome_matches(
            r,
            spec_exports_resolve(
                package_json_path@,
                package_subpath@,
                *exports,
                base@,
                conditions@,
                *fs,
                fuel as nat,
            ),
        ),
    decreases fuel, 4int, JsonValue::Null, 0int, 0int,
{
    match exports {
        JsonValue::Obj(entries) => {
            if has_mixed_keys(entries) {
                Outcome::Failed(
                    err_invalid_package_config(
                        package_json_path,
                        Some(base),
                        Some(mixed_keys_reason()),
                    ),
                )
            } else if all_dotted_keys(entries) {
                exports_map(
                    package_json_path,
                    package_subpath,
                    entries,
                    base,
                    conditions,
                    fs,
                    fuel,
                )
            } else {
                exports_sugar(
                    package_json_path,
                    package_subpath,
                    exports,
                    base,
                    conditions,
                    fs,
                    fuel,
                )
            }
        },
        JsonValue::Null => Outcome::Failed(
            throw_exports_not_found(package_subpath, package_json_path, base),
        ),
        _ => exports_sugar(
            package_json_path,
            package_subpath,
            exports,
            base,
            conditions,
            fs,
            fuel,
        ),
    }
}

/// Main sugar (see [`spec_exports_sugar`]).
fn exports_sugar(
    package_json_path: &str,
    package_subpath: &str,
    exports: &JsonValue,
    base: &str,
    conditions: &Vec<String>,
    fs: &Fs,
    fuel: u32,
) -> (r: Outcome)
    ensures
        outcome_matches(
            r,
            spec_exports_sugar(
                package_json_path@,
                package_subpath@,
                *exports,
                base@,
                conditions@,
                *fs,
                fuel as nat,
            ),
        ),
    decreases fuel, 3int, JsonValue::Null, 0int, 0int,
{
    if str_eq(package_subpath, ".") {
        let step = resolve_package_target(
            package_json_path,
            exports,
            "",
            package_subpath,
            base,
            false,
            false,
            conditions,
            fs,
            fuel,
        );
        exports_outcome(step, package_json_path, package_subpath, base)
    } else {
        Outcome::Failed(throw_exports_not_found(package_subpath, package_json_path, base))
    }
}

/// A subpath-keyed exports map (see [`spec_exports_map`]).
fn exports_map(
    package_json_path: &str,
    package_subpath: &str,
    entries: &Vec<(String, JsonValue)>,
    base: &str,
    conditions: &Vec<String>,
    fs: &Fs,
    fuel: u32,
) -> (r: Outcome)
    ensures
        outcome_matches(
            r,
            spec_exports_map(
                package_json_path@,
                package_subpath@,
                entries@,
                base@,
                conditions@,
                *fs,
                fuel as nat,
            ),
        ),
    decreases fuel, 3int, JsonValue::Null, 0int, 0int,
{
    let exact = obj_get(entries, package_subpath);
    if exact.is_some() && !contains_char(package_subpath, '*') && !ends_slash(package_subpath) {
        match exact {
            Some(target) => {
                let step = resolve_package_target(
                    package_json_path,
                    target,
                    "",
                    package_subpath,
                    base,
                    false,
                    false,
                    conditions,
                    fs,
                    fuel,
                );
                exports_outcome(step, package_json_path, package_subpath, base)
            },
            None => Outcome::Failed(
                throw_exports_not_found(package_subpath, package_json_path, base),
            ),
        }
    } else {
        match best_match(entries, package_subpath) {
            Some(key_capture) => {
                match obj_get(entries, key_capture.0.as_str()) {
                    Some(target) => {
                        let step = resolve_package_target(
                            package_json_path,
                            target,
                            key_capture.1.as_str(),
                            key_capture.0.as_str(),
                            base,
                            true,
                            false,
                            conditions,
                            fs,
                            fuel,
                        );
                        exports_outcome(step, package_json_path, package_subpath, base)
                    },
                    None => Outcome::Failed(
                        throw_exports_not_found(package_subpath, package_json_path, base),
                    ),
                }
            },
            None => Outcome::Failed(
                throw_exports_not_found(package_subpath, package_json_path, base),
            ),
        }
    }
}

} // verus!
