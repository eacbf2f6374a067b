//! The laws the resolver obeys, proved over the mathematical images that the
//! executable functions are specified against.

use vstd::prelude::*;
use crate::errors::ErrorKind;
use crate::exports::{spec_cond_matches, spec_exports_resolve, spec_resolve_target,
    spec_target_conds, spec_target_list, spec_target_string};
use crate::fs::{spec_read, spec_stat, Fs, FsKind};
use crate::json::{spec_obj_get, JsonValue};
use crate::legacy::{spec_legacy_main, spec_legacy_suffixes, spec_suffix};
use crate::outcome::{outcome_eq, outcome_matches, Outcome, SpecOutcome, SpecTargetStep};
use crate::package_json::{spec_all_dotted, spec_config_exports, spec_config_main,
    spec_load, spec_mixed_keys, SpecLoad};
use crate::pattern::{spec_base_len, spec_best_key, spec_best_match, spec_is_pattern_candidate,
    spec_pattern_capture, spec_pattern_key_compare};
use crate::parse_specifier::spec_parse_specifier;
use crate::resolve::{spec_found_package, spec_old_subpath, spec_package_json_candidate,
    spec_probe, spec_walk_ancestors};
use crate::spec_resolve;
use crate::strings::{idx_of, spec_has_dot_slash, spec_has_invalid_segment, spec_join,
    spec_parent_dir, spec_replace_star, spec_starts_with};

verus! {

/// Resolution is idempotent: two resolve calls on the same specifier,
/// referrer, conditions and filesystem snapshot return the same outcome —
/// the same path, the same query, or the same error kind and message.
pub proof fn lemma_resolve_idempotent(
    r1: Outcome,
    r2: Outcome,
    specifier: Seq<char>,
    referrer: Seq<char>,
    conds: Seq<String>,
    fs: Fs,
    fuel: nat,
)
    requires
        outcome_matches(r1, spec_resolve(specifier, referrer, conds, fs, fuel)),
        outcome_matches(r2, spec_resolve(specifier, referrer, conds, fs, fuel)),
    ensures
        outcome_eq(r1, r2),
{
}

/// With no "exports" field and a declared main that is a file on disk,
/// resolving the `.` subpath yields exactly that file's path.
pub proof fn lemma_legacy_main_literal(pkg_dir: Seq<char>, m: String, base: Seq<char>, fs: Fs)
    requires
        spec_stat(fs, spec_join(pkg_dir, m@)) == Option::Some(FsKind::File),
    ensures
        spec_legacy_main(pkg_dir, Option::Some(m), base, fs) == SpecOutcome::Resolved(
            spec_join(pkg_dir, m@),
        ),
{
}

proof fn lemma_legacy_suffixes_first(
    pkg_dir: Seq<char>,
    m: Seq<char>,
    j: int,
    i: int,
    base: Seq<char>,
    fs: Fs,
)
    requires
        0 <= j <= i < 6,
        spec_stat(fs, spec_join(pkg_dir, m + spec_suffix(i))) == Option::Some(FsKind::File),
        forall|k: int|
            j <= k < i ==> (#[trigger] spec_stat(fs, spec_join(pkg_dir, m + spec_suffix(k)))
                matches Option::Some(f) && f != FsKind::File),
    ensures
        spec_legacy_suffixes(pkg_dir, m, j, base, fs) == SpecOutcome::Resolved(
            spec_join(pkg_dir, m + spec_suffix(i)),
        ),
    decreases i - j,
{
    if j < i {
        lemma_legacy_suffixes_first(pkg_dir, m, j + 1, i, base, fs);
    }
}

/// With no "exports" field, a declared main that is absent on disk, and some
/// suffix variant of the main existing as a file, resolving the `.` subpath
/// yields the first existing variant in the fixed suffix order.
pub proof fn lemma_legacy_main_first_variant(
    pkg_dir: Seq<char>,
    m: String,
    i: int,
    base: Seq<char>,
    fs: Fs,
)
    requires
        spec_stat(fs, spec_join(pkg_dir, m@)) matches Option::Some(f) && f != FsKind::File,
        0 <= i < 6,
        spec_stat(fs, spec_join(pkg_dir, m@ + spec_suffix(i))) == Option::Some(FsKind::File),
        forall|k: int|
            0 <= k < i ==> (#[trigger] spec_stat(fs, spec_join(pkg_dir, m@ + spec_suffix(k)))
                matches Option::Some(f) && f != FsKind::File),
    ensures
        spec_legacy_main(pkg_dir, Option::Some(m), base, fs) == SpecOutcome::Resolved(
            spec_join(pkg_dir, m@ + spec_suffix(i)),
        ),
{
    lemma_legacy_suffixes_first(pkg_dir, m@, 0, i, base, fs);
}

/// A found package without an "exports" field resolves the `.` subpath
/// through the legacy main fallback, nothing else.
pub proof fn lemma_no_exports_dot_uses_legacy_main(
    package_json_path: Seq<char>,
    root: Option<Vec<(String, JsonValue)>>,
    base: Seq<char>,
    conds: Seq<String>,
    fs: Fs,
    fuel: nat,
)
    requires
        spec_config_exports(root) is None,
    ensures
        spec_found_package(package_json_path, root, "."@, base, conds, fs, fuel)
            == spec_legacy_main(
            spec_parent_dir(package_json_path),
            spec_config_main(root),
            base,
            fs,
        ),
{
}

/// A scoped bare specifier consumes two `/`-delimited segments as its package
/// name: with a first separator at `i`, a second at `j`, and no `%` or `\\`
/// before `j`, the name is everything before `j` and the subpath is `.` plus
/// the remainder.
pub proof fn lemma_parse_specifier_scoped(s: Seq<char>, i: int, j: int)
    requires
        s.len() > 0,
        s[0] == '@',
        idx_of(s, 0, '/') == Option::Some(i),
        idx_of(s, i + 1, '/') == Option::Some(j),
        idx_of(s.subrange(0, j), 0, '%') is None,
        idx_of(s.subrange(0, j), 0, '\\') is None,
    ensures
        spec_parse_specifier(s) == Option::Some(
            (s.subrange(0, j), "."@ + s.subrange(j, s.len() as int)),
        ),
{
}

/// The first ancestor whose `node_modules` holds the package wins it: where
/// its config loads with no "exports" field and the subpath (other than `.`)
/// names an existing file under the package directory, the walk resolves to
/// exactly that file, whatever the conditions.
pub proof fn lemma_no_exports_subpath_file(
    dir: Seq<char>,
    name: Seq<char>,
    subpath: Seq<char>,
    specifier: Seq<char>,
    base: Seq<char>,
    conds: Seq<String>,
    fs: Fs,
    fuel: nat,
    text: String,
    root: Option<Vec<(String, JsonValue)>>,
)
    requires
        spec_read(fs, spec_package_json_candidate(dir, name)) == Option::Some(Option::Some(text)),
        spec_load(text@) == SpecLoad::Loaded(root),
        spec_config_exports(root) is None,
        subpath != "."@,
        spec_stat(
            fs,
            spec_join(spec_parent_dir(spec_package_json_candidate(dir, name)), subpath),
        ) == Option::Some(FsKind::File),
    ensures
        spec_walk_ancestors(dir, name, subpath, specifier, base, conds, fs, fuel)
            == SpecOutcome::Resolved(
            spec_join(spec_parent_dir(spec_package_json_candidate(dir, name)), subpath),
        ),
{
    let pkgjson = spec_package_json_candidate(dir, name);
    let module_dir = spec_parent_dir(pkgjson);
    let d = spec_join(module_dir, subpath);
    assert(spec_walk_ancestors(dir, name, subpath, specifier, base, conds, fs, fuel)
        == spec_found_package(pkgjson, root, subpath, base, conds, fs, fuel));
    assert(spec_found_package(pkgjson, root, subpath, base, conds, fs, fuel) == spec_old_subpath(
        module_dir,
        subpath,
        base,
        fs,
    ));
    assert(spec_old_subpath(module_dir, subpath, base, fs) == spec_probe(d, base, fs));
    assert(spec_probe(d, base, fs) == SpecOutcome::Resolved(d));
}

/// The same walk with nothing on disk at the joined subpath, with or without
/// a `.js` extension, fails with `ModuleNotFound`.
pub proof fn lemma_no_exports_subpath_missing(
    dir: Seq<char>,
    name: Seq<char>,
    subpath: Seq<char>,
    specifier: Seq<char>,
    base: Seq<char>,
    conds: Seq<String>,
    fs: Fs,
    fuel: nat,
    text: String,
    root: Option<Vec<(String, JsonValue)>>,
)
    requires
        spec_read(fs, spec_package_json_candidate(dir, name)) == Option::Some(Option::Some(text)),
        spec_load(text@) == SpecLoad::Loaded(root),
        spec_config_exports(root) is None,
        subpath != "."@,
        spec_stat(
            fs,
            spec_join(spec_parent_dir(spec_package_json_candidate(dir, name)), subpath),
        ) == Option::Some(FsKind::Missing),
        spec_stat(
            fs,
            spec_join(spec_parent_dir(spec_package_json_candidate(dir, name)), subpath) + ".js"@,
        ) == Option::Some(FsKind::Missing),
    ensures
        spec_walk_ancestors(dir, name, subpath, specifier, base, conds, fs, fuel)
            matches SpecOutcome::Failed(e) && e.kind == ErrorKind::ModuleNotFound,
{
    let pkgjson = spec_package_json_candidate(dir, name);
    let module_dir = spec_parent_dir(pkgjson);
    let d = spec_join(module_dir, subpath);
    assert(spec_walk_ancestors(dir, name, subpath, specifier, base, conds, fs, fuel)
        == spec_found_package(pkgjson, root, subpath, base, conds, fs, fuel));
    assert(spec_found_package(pkgjson, root, subpath, base, conds, fs, fuel) == spec_old_subpath(
        module_dir,
        subpath,
        base,
        fs,
    ));
    assert(spec_old_subpath(module_dir, subpath, base, fs) == spec_probe(d, base, fs));
}

/// A bare-string exports value (`"exports": "./x.js"`) is main sugar: for a
/// well-formed target under a real package directory, resolving the `.`
/// subpath returns the target joined onto the package directory.
pub proof fn lemma_exports_bare_string_dot(
    package_json_path: Seq<char>,
    t: String,
    base: Seq<char>,
    conds: Seq<String>,
    fs: Fs,
    fuel: nat,
)
    requires
        spec_has_dot_slash(t@),
        !spec_has_invalid_segment(t@.subrange(2, t@.len() as int)),
        idx_of(t@, 0, '*') is None,
        spec_parent_dir(package_json_path).len() > 0,
        spec_parent_dir(package_json_path)[spec_parent_dir(package_json_path).len() - 1] != '/',
    ensures
        spec_exports_resolve(package_json_path, "."@, JsonValue::Str(t), base, conds, fs, fuel)
            == SpecOutcome::Resolved(spec_join(spec_parent_dir(package_json_path), t@)),
{
    reveal_strlit("");
    reveal_strlit("/");
    reveal_strlit(".");
    let pkg_dir = spec_parent_dir(package_json_path);
    let rest = t@.subrange(2, t@.len() as int);
    let step = spec_target_string(
        package_json_path,
        t@,
        ""@,
        "."@,
        base,
        false,
        false,
        conds,
        fs,
        fuel,
    );
    assert(spec_replace_star(t@, ""@) == t@) by {
        assert(idx_of(t@, 0, '*') is None);
    }
    if spec_has_dot_slash(rest) {
        assert(idx_of(rest, 1, '/') == Option::Some(1int));
        assert(idx_of(rest, 0, '/') == Option::Some(1int));
        assert(rest.subrange(0, 1) =~= "."@);
        assert(spec_has_invalid_segment(rest));
        assert(false);
    }
    if rest.len() == 0 {
        assert(spec_join(pkg_dir, rest) == pkg_dir);
        assert(step == SpecTargetStep::Hit(pkg_dir));
        assert(spec_join(pkg_dir, t@) == pkg_dir);
    } else {
        let resolved = pkg_dir + seq!['/'] + rest;
        assert(spec_join(pkg_dir, rest) == resolved);
        assert(pkg_dir + "/"@ =~= pkg_dir + seq!['/']);
        assert(spec_starts_with(resolved, pkg_dir + "/"@));
        assert(step == SpecTargetStep::Hit(resolved));
        assert(spec_join(pkg_dir, t@) == resolved);
    }
}

/// A bare-string exports value exports nothing but `.`: resolving any other
/// subpath fails with `PackagePathNotExported`.
pub proof fn lemma_exports_bare_string_other(
    package_json_path: Seq<char>,
    t: String,
    subpath: Seq<char>,
    base: Seq<char>,
    conds: Seq<String>,
    fs: Fs,
    fuel: nat,
)
    requires
        subpath != "."@,
    ensures
        spec_exports_resolve(package_json_path, subpath, JsonValue::Str(t), base, conds, fs, fuel)
            matches SpecOutcome::Failed(e) && e.kind == ErrorKind::PackagePathNotExported,
{
}

/// Condition objects are read in file order: where the entries before `i`
/// name no active condition, entry `i` names one, and its value resolves to
/// something other than a miss, that resolution is the object's.
pub proof fn lemma_conditions_first_match(
    package_json_path: Seq<char>,
    entries: Seq<(String, JsonValue)>,
    i: int,
    start: int,
    fill: Seq<char>,
    match_key: Seq<char>,
    base: Seq<char>,
    pattern: bool,
    internal: bool,
    conds: Seq<String>,
    fs: Fs,
    fuel: nat,
)
    requires
        0 <= start <= i < entries.len(),
        forall|j: int| start <= j < i ==> !spec_cond_matches(conds, #[trigger] entries[j].0@),
        spec_cond_matches(conds, entries[i].0@),
        !(spec_resolve_target(
            package_json_path,
            entries[i].1,
            fill,
            match_key,
            base,
            pattern,
            internal,
            conds,
            fs,
            fuel,
        ) is Miss),
    ensures
        spec_target_conds(
            package_json_path,
            entries,
            start,
            fill,
            match_key,
            base,
            pattern,
            internal,
            conds,
            fs,
            fuel,
        ) == spec_resolve_target(
            package_json_path,
            entries[i].1,
            fill,
            match_key,
            base,
            pattern,
            internal,
            conds,
            fs,
            fuel,
        ),
    decreases i - start,
{
    if start < i {
        lemma_conditions_first_match(
            package_json_path,
            entries,
            i,
            start + 1,
            fill,
            match_key,
            base,
            pattern,
            internal,
            conds,
            fs,
            fuel,
        );
    }
}

/// A condition object where no entry names an active condition matches
/// nothing (a miss, never an error).
pub proof fn lemma_conditions_no_match(
    package_json_path: Seq<char>,
    entries: Seq<(String, JsonValue)>,
    start: int,
    fill: Seq<char>,
    match_key: Seq<char>,
    base: Seq<char>,
    pattern: bool,
    internal: bool,
    conds: Seq<String>,
    fs: Fs,
    fuel: nat,
)
    requires
        0 <= start,
        forall|j: int|
            start <= j < entries.len() ==> !spec_cond_matches(conds, #[trigger] entries[j].0@),
    ensures
        spec_target_conds(
            package_json_path,
            entries,
            start,
            fill,
            match_key,
            base,
            pattern,
            internal,
            conds,
            fs,
            fuel,
        ) == SpecTargetStep::Miss,
    decreases entries.len() - start,
{
    if start < entries.len() {
        lemma_conditions_no_match(
            package_json_path,
            entries,
            start + 1,
            fill,
            match_key,
            base,
            pattern,
            internal,
            conds,
            fs,
            fuel,
        );
    }
}

/// A string target that names a traversal segment (`.`, `..` or
/// `node_modules`) under its `./` never resolves: it fails with
/// `InvalidPackageTarget`, whatever the fill, the conditions, the snapshot or
/// the mode.
pub proof fn lemma_traversal_rejected(
    package_json_path: Seq<char>,
    t: String,
    fill: Seq<char>,
    match_key: Seq<char>,
    base: Seq<char>,
    pattern: bool,
    internal: bool,
    conds: Seq<String>,
    fs: Fs,
    fuel: nat,
)
    requires
        spec_has_dot_slash(t@),
        spec_has_invalid_segment(t@.subrange(2, t@.len() as int)),
        idx_of(t@, 0, '*') is None,
    ensures
        spec_resolve_target(
            package_json_path,
            JsonValue::Str(t),
            fill,
            match_key,
            base,
            pattern,
            internal,
            conds,
            fs,
            fuel,
        ) matches SpecTargetStep::Failed(e) && e.kind == ErrorKind::InvalidPackageTarget,
{
    assert(spec_replace_star(t@, fill) == t@) by {
        assert(idx_of(t@, 0, '*') is None);
    }
}

/// A resolved path lies at or under the given directory.
pub open spec fn spec_under_dir(p: Seq<char>, dir: Seq<char>) -> bool {
    p == dir || spec_starts_with(p, dir + "/"@)
}

/// Joining a further relative segment onto a path at or under a directory of
/// the usual shape (non-empty, no trailing separator) stays at or under it.
proof fn lemma_join_stays_under(p: Seq<char>, rel: Seq<char>, dir: Seq<char>)
    requires
        spec_under_dir(p, dir),
        dir.len() > 0,
        dir[dir.len() - 1] != '/',
    ensures
        spec_under_dir(spec_join(p, rel), dir),
{
    reveal_strlit("/");
    let r = if spec_has_dot_slash(rel) {
        rel.subrange(2, rel.len() as int)
    } else {
        rel
    };
    assert(dir + "/"@ =~= dir + seq!['/']);
    if r.len() == 0 {
    } else if p.len() == 0 {
        assert(false);
    } else if p[p.len() - 1] == '/' {
        assert(p != dir);
        assert(spec_starts_with(p, dir + "/"@));
        assert(spec_starts_with(p + r, dir + "/"@));
    } else {
        let joined = p + seq!['/'] + r;
        assert(spec_join(p, rel) == joined);
        if p == dir {
            assert(spec_starts_with(joined, dir + "/"@));
        } else {
            assert(spec_starts_with(p, dir + "/"@));
            assert(spec_starts_with(joined, dir + "/"@));
        }
    }
}

/// A string target in exports mode is contained: on any hit — whatever the
/// fill, the pattern mode, the conditions or the snapshot — the resolved path
/// lies at or under the package directory, for a package directory of the
/// usual shape where a non-pattern suffix is appended.
pub proof fn lemma_target_string_contained(
    package_json_path: Seq<char>,
    target: Seq<char>,
    fill: Seq<char>,
    match_key: Seq<char>,
    base: Seq<char>,
    pattern: bool,
    conds: Seq<String>,
    fs: Fs,
    fuel: nat,
)
    requires
        pattern || fill.len() == 0 || (spec_parent_dir(package_json_path).len() > 0
            && spec_parent_dir(package_json_path)[spec_parent_dir(package_json_path).len() - 1]
            != '/'),
    ensures
        spec_target_string(
            package_json_path,
            target,
            fill,
            match_key,
            base,
            pattern,
            false,
            conds,
            fs,
            fuel,
        ) matches SpecTargetStep::Hit(p) ==> spec_under_dir(
            p,
            spec_parent_dir(package_json_path),
        ),
{
    let pkg_dir = spec_parent_dir(package_json_path);
    let t = if pattern {
        spec_replace_star(target, fill)
    } else {
        target
    };
    if spec_has_dot_slash(t) && !spec_has_invalid_segment(t.subrange(2, t.len() as int)) {
        let resolved = spec_join(pkg_dir, t.subrange(2, t.len() as int));
        if (resolved == pkg_dir || spec_starts_with(resolved, pkg_dir + "/"@)) && !(pattern
            || fill.len() == 0) && !spec_has_invalid_segment(fill) {
            lemma_join_stays_under(resolved, fill, pkg_dir);
        }
    }
}

/// A whole exports-mode target tree is contained in the same way.
pub proof fn lemma_target_contained(
    package_json_path: Seq<char>,
    target: JsonValue,
    fill: Seq<char>,
    match_key: Seq<char>,
    base: Seq<char>,
    pattern: bool,
    conds: Seq<String>,
    fs: Fs,
    fuel: nat,
)
    requires
        pattern || fill.len() == 0 || (spec_parent_dir(package_json_path).len() > 0
            && spec_parent_dir(package_json_path)[spec_parent_dir(package_json_path).len() - 1]
            != '/'),
    ensures
        spec_resolve_target(
            package_json_path,
            target,
            fill,
            match_key,
            base,
            pattern,
            false,
            conds,
            fs,
            fuel,
        ) matches SpecTargetStep::Hit(p) ==> spec_under_dir(
            p,
            spec_parent_dir(package_json_path),
        ),
    decreases fuel, 2int, target, 1int, 0int,
{
    match target {
        JsonValue::Str(s) => {
            lemma_target_string_contained(
                package_json_path,
                s@,
                fill,
                match_key,
                base,
                pattern,
                conds,
                fs,
                fuel,
            );
        },
        JsonValue::Arr(items) => {
            if items@.len() > 0 {
                lemma_target_list_contained(
                    package_json_path,
                    items@,
                    0,
                    fill,
                    match_key,
                    base,
                    pattern,
                    conds,
                    fs,
                    fuel,
                );
            }
        },
        JsonValue::Obj(entries) => {
            lemma_target_conds_contained(
                package_json_path,
                entries@,
                0,
                fill,
                match_key,
                base,
                pattern,
                conds,
                fs,
                fuel,
            );
        },
        _ => {},
    }
}

proof fn lemma_target_list_contained(
    package_json_path: Seq<char>,
    items: Seq<JsonValue>,
    idx: int,
    fill: Seq<char>,
    match_key: Seq<char>,
    base: Seq<char>,
    pattern: bool,
    conds: Seq<String>,
    fs: Fs,
    fuel: nat,
)
    requires
        pattern || fill.len() == 0 || (spec_parent_dir(package_json_path).len() > 0
            && spec_parent_dir(package_json_path)[spec_parent_dir(package_json_path).len() - 1]
            != '/'),
    ensures
        spec_target_list(
            package_json_path,
            items,
            idx,
            fill,
            match_key,
            base,
            pattern,
            false,
            conds,
            fs,
            fuel,
        ) matches SpecTargetStep::Hit(p) ==> spec_under_dir(
            p,
            spec_parent_dir(package_json_path),
        ),
    decreases fuel, 2int, items, 0int, items.len() - idx,
{
    if 0 <= idx < items.len() {
        lemma_target_contained(
            package_json_path,
            items[idx],
            fill,
            match_key,
            base,
            pattern,
            conds,
            fs,
            fuel,
        );
        lemma_target_list_contained(
            package_json_path,
            items,
            idx + 1,
            fill,
            match_key,
            base,
            pattern,
            conds,
            fs,
            fuel,
        );
    }
}

proof fn lemma_target_conds_contained(
    package_json_path: Seq<char>,
    entries: Seq<(String, JsonValue)>,
    idx: int,
    fill: Seq<char>,
    match_key: Seq<char>,
    base: Seq<char>,
    pattern: bool,
    conds: Seq<String>,
    fs: Fs,
    fuel: nat,
)
    requires
        pattern || fill.len() == 0 || (spec_parent_dir(package_json_path).len() > 0
            && spec_parent_dir(package_json_path)[spec_parent_dir(package_json_path).len() - 1]
            != '/'),
    ensures
        spec_target_conds(
            package_json_path,
            entries,
            idx,
            fill,
            match_key,
            base,
            pattern,
            false,
            conds,
            fs,
            fuel,
        ) matches SpecTargetStep::Hit(p) ==> spec_under_dir(
            p,
            spec_parent_dir(package_json_path),
        ),
    decreases fuel, 2int, entries, 0int, entries.len() - idx,
{
    if 0 <= idx < entries.len() {
        lemma_target_contained(
            package_json_path,
            entries[idx].1,
            fill,
            match_key,
            base,
            pattern,
            conds,
            fs,
            fuel,
        );
        lemma_target_conds_contained(
            package_json_path,
            entries,
            idx + 1,
            fill,
            match_key,
            base,
            pattern,
            conds,
            fs,
            fuel,
        );
    }
}

/// Exports resolution is contained: whatever the "exports" tree holds —
/// strings, lists, condition objects, wildcard patterns — a path it resolves
/// to lies at or under the package's own directory.
pub proof fn lemma_exports_resolve_contained(
    package_json_path: Seq<char>,
    package_subpath: Seq<char>,
    exports: JsonValue,
    base: Seq<char>,
    conds: Seq<String>,
    fs: Fs,
    fuel: nat,
)
    ensures
        spec_exports_resolve(package_json_path, package_subpath, exports, base, conds, fs, fuel)
            matches SpecOutcome::Resolved(p) ==> spec_under_dir(
            p,
            spec_parent_dir(package_json_path),
        ),
{
    reveal_strlit("");
    match exports {
        JsonValue::Obj(entries) => {
            if !spec_mixed_keys(entries@) && spec_all_dotted(entries@) {
                match spec_obj_get(entries@, package_subpath) {
                    Option::Some(target) => {
                        lemma_target_contained(
                            package_json_path,
                            target,
                            ""@,
                            package_subpath,
                            base,
                            false,
                            conds,
                            fs,
                            fuel,
                        );
                    },
                    Option::None => {},
                }
                match spec_best_match(entries@, package_subpath) {
                    Option::Some(key) => {
                        match spec_obj_get(entries@, key@) {
                            Option::Some(target) => {
                                lemma_target_contained(
                                    package_json_path,
                                    target,
                                    spec_pattern_capture(key@, package_subpath),
                                    key@,
                                    base,
                                    true,
                                    conds,
                                    fs,
                                    fuel,
                                );
                            },
                            Option::None => {},
                        }
                    },
                    Option::None => {},
                }
            } else {
                lemma_target_contained(
                    package_json_path,
                    exports,
                    ""@,
                    package_subpath,
                    base,
                    false,
                    conds,
                    fs,
                    fuel,
                );
            }
        },
        JsonValue::Null => {},
        _ => {
            lemma_target_contained(
                package_json_path,
                exports,
                ""@,
                package_subpath,
                base,
                false,
                conds,
                fs,
                fuel,
            );
        },
    }
}

/// The pattern tie-break is as specified: between two wildcard keys whose
/// static prefixes tie, the comparator prefers the shorter full key, in both
/// argument orders.
pub proof fn lemma_pattern_tiebreak(a: Seq<char>, b: Seq<char>)
    requires
        idx_of(a, 0, '*') is Some,
        idx_of(b, 0, '*') is Some,
        spec_base_len(a) == spec_base_len(b),
        a.len() < b.len(),
    ensures
        spec_pattern_key_compare(a, b) == -1,
        spec_pattern_key_compare(b, a) == 1,
{
}

/// Pattern matching is deterministic: two runs of the matcher over the same
/// keys and subpath select the same key, always.
pub proof fn lemma_best_match_deterministic(
    entries: Seq<(String, JsonValue)>,
    subpath: Seq<char>,
    r1: Option<String>,
    r2: Option<String>,
)
    requires
        r1 == spec_best_match(entries, subpath),
        r2 == spec_best_match(entries, subpath),
    ensures
        r1 == r2,
{
}

/// Strict preference is transitive: where the comparator strictly prefers `b`
/// to `a` and `c` to `b`, it strictly prefers `c` to `a`.
proof fn lemma_cmp_trans(a: Seq<char>, b: Seq<char>, c: Seq<char>)
    requires
        spec_pattern_key_compare(a, b) == 1,
        spec_pattern_key_compare(b, c) == 1,
    ensures
        spec_pattern_key_compare(a, c) == 1,
{
}

/// Strict preference is asymmetric: where the comparator strictly prefers `b`
/// to `a`, it does not strictly prefer `a` to `b`.
proof fn lemma_cmp_asym(a: Seq<char>, b: Seq<char>)
    requires
        spec_pattern_key_compare(a, b) == 1,
    ensures
        spec_pattern_key_compare(b, a) != 1,
{
}

proof fn lemma_best_key_optimal(
    entries: Seq<(String, JsonValue)>,
    subpath: Seq<char>,
    i: int,
    cur: Option<String>,
)
    requires
        0 <= i <= entries.len(),
        cur matches Option::Some(c) ==> spec_is_pattern_candidate(c@, subpath),
    ensures
        match spec_best_key(entries, subpath, i, cur) {
            Option::Some(k) => spec_is_pattern_candidate(k@, subpath) && (cur == Option::Some(k)
                || exists|j: int| i <= j < entries.len() && entries[j].0 == k) && (forall|j: int|
                i <= j < entries.len() && spec_is_pattern_candidate(
                    #[trigger] entries[j].0@,
                    subpath,
                ) ==> spec_pattern_key_compare(k@, entries[j].0@) != 1) && (cur matches Option::Some(
                c,
            ) ==> k == c || spec_pattern_key_compare(c@, k@) == 1),
            Option::None => cur is None && (forall|j: int|
                i <= j < entries.len() ==> !spec_is_pattern_candidate(
                    #[trigger] entries[j].0@,
                    subpath,
                )),
        },
    decreases entries.len() - i,
{
    if i < entries.len() {
        let k_i = entries[i].0;
        let better = spec_is_pattern_candidate(k_i@, subpath) && match cur {
            Option::None => true,
            Option::Some(c) => spec_pattern_key_compare(c@, k_i@) == 1,
        };
        let cur2 = if better {
            Option::Some(k_i)
        } else {
            cur
        };
        lemma_best_key_optimal(entries, subpath, i + 1, cur2);
        let result = spec_best_key(entries, subpath, i, cur);
        assert(result == spec_best_key(entries, subpath, i + 1, cur2));
        match result {
            Option::Some(k) => {
                if spec_is_pattern_candidate(k_i@, subpath) {
                    if better {
                        if k != k_i {
                            assert(spec_pattern_key_compare(k_i@, k@) == 1);
                            lemma_cmp_asym(k_i@, k@);
                            match cur {
                                Option::Some(c) => {
                                    lemma_cmp_trans(c@, k_i@, k@);
                                },
                                Option::None => {},
                            }
                        }
                    } else {
                        match cur {
                            Option::Some(c) => {
                                assert(spec_pattern_key_compare(c@, k_i@) != 1);
                                if k != c && spec_pattern_key_compare(k@, k_i@) == 1 {
                                    assert(spec_pattern_key_compare(c@, k@) == 1);
                                    lemma_cmp_trans(c@, k@, k_i@);
                                    assert(false);
                                }
                            },
                            Option::None => {
                                assert(false);
                            },
                        }
                    }
                }
            },
            Option::None => {},
        }
    }
}

/// What the pattern matcher selects is sound and optimal: a selected key is a
/// candidate for the subpath, stands among the object's keys, and no
/// candidate anywhere in the object is strictly preferred to it by the
/// comparator; where nothing is selected, no key is a candidate.
pub proof fn lemma_best_match_optimal(entries: Seq<(String, JsonValue)>, subpath: Seq<char>)
    ensures
        match spec_best_match(entries, subpath) {
            Option::Some(k) => spec_is_pattern_candidate(k@, subpath) && (exists|j: int|
                0 <= j < entries.len() && entries[j].0 == k) && (forall|j: int|
                0 <= j < entries.len() && spec_is_pattern_candidate(
                    #[trigger] entries[j].0@,
                    subpath,
                ) ==> spec_pattern_key_compare(k@, entries[j].0@) != 1),
            Option::None => forall|j: int|
                0 <= j < entries.len() ==> !spec_is_pattern_candidate(
                    #[trigger] entries[j].0@,
                    subpath,
                ),
        },
{
    lemma_best_key_optimal(entries, subpath, 0, Option::None);
}

} // verus!
