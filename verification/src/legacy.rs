//! The legacy "main" fallback, used when a package has no "exports" field:
//! probe the declared main literally, then its extension and index variants
//! in a fixed order, then the package's own index files.

use vstd::prelude::*;
use vstd::string::*;
use crate::errors::{msg_not_found, not_found, ErrorKind, SpecErr};
use crate::fs::{fs_stat, spec_stat, Fs, FsKind};
use crate::outcome::{outcome_matches, Outcome, SpecOutcome};
use crate::strings::{concat2, join_rel, spec_join};

verus! {

/// The suffixes tried after the literal main, in order.
pub open spec fn spec_suffix(i: int) -> Seq<char> {
    if i == 0 {
        ".js"@
    } else if i == 1 {
        ".json"@
    } else if i == 2 {
        ".node"@
    } else if i == 3 {
        "/index.js"@
    } else if i == 4 {
        "/index.json"@
    } else {
        "/index.node"@
    }
}

fn suffix_at(i: usize) -> (r: &'static str)
    requires
        i < 6,
    ensures
        r@ == spec_suffix(i as int),
{
    if i == 0 {
        ".js"
    } else if i == 1 {
        ".json"
    } else if i == 2 {
        ".node"
    } else if i == 3 {
        "/index.js"
    } else if i == 4 {
        "/index.json"
    } else {
        "/index.node"
    }
}

/// The index files tried at the package root, in order.
pub open spec fn spec_index_name(i: int) -> Seq<char> {
    if i == 0 {
        "index.js"@
    } else if i == 1 {
        "index.json"@
    } else {
        "index.node"@
    }
}

fn index_name_at(i: usize) -> (r: &'static str)
    requires
        i < 3,
    ensures
        r@ == spec_index_name(i as int),
{
    if i == 0 {
        "index.js"
    } else if i == 1 {
        "index.json"
    } else {
        "index.node"
    }
}

/// The error that ends the fallback chain: the package directory whose entry
/// point was not found, and the referrer that asked for it.
pub open spec fn spec_legacy_not_found(pkg_dir: Seq<char>, base: Seq<char>) -> SpecErr {
    SpecErr { kind: ErrorKind::ModuleNotFound, message: msg_not_found(pkg_dir, base) }
}

/// Mathematical image of probing the index files from candidate `i` on.
pub open spec fn spec_legacy_index(pkg_dir: Seq<char>, i: int, base: Seq<char>, fs: Fs) -> SpecOutcome
    decreases 3 - i,
{
    if i < 0 || i >= 3 {
        SpecOutcome::Failed(spec_legacy_not_found(pkg_dir, base))
    } else {
        let guess = spec_join(pkg_dir, spec_index_name(i));
        match spec_stat(fs, guess) {
            Option::None => SpecOutcome::NeedStat(guess),
            Option::Some(FsKind::File) => SpecOutcome::Resolved(guess),
            Option::Some(_) => spec_legacy_index(pkg_dir, i + 1, base, fs),
        }
    }
}

/// Mathematical image of probing the main's suffix variants from suffix `i`
/// on, falling back to the index files.
pub open spec fn spec_legacy_suffixes(
    pkg_dir: Seq<char>,
    main: Seq<char>,
    i: int,
    base: Seq<char>,
    fs: Fs,
) -> SpecOutcome
    decreases 6 - i,
{
    if i < 0 || i >= 6 {
        spec_legacy_index(pkg_dir, 0, base, fs)
    } else {
        let guess = spec_join(pkg_dir, main + spec_suffix(i));
        match spec_stat(fs, guess) {
            Option::None => SpecOutcome::NeedStat(guess),
            Option::Some(FsKind::File) => SpecOutcome::Resolved(guess),
            Option::Some(_) => spec_legacy_suffixes(pkg_dir, main, i + 1, base, fs),
        }
    }
}

/// Mathematical image of [`legacy_main_resolve`].
pub open spec fn spec_legacy_main(
    pkg_dir: Seq<char>,
    main: Option<String>,
    base: Seq<char>,
    fs: Fs,
) -> SpecOutcome {
    match main {
        Option::Some(m) => {
            let guess = spec_join(pkg_dir, m@);
            match spec_stat(fs, guess) {
                Option::None => SpecOutcome::NeedStat(guess),
                Option::Some(FsKind::File) => SpecOutcome::Resolved(guess),
                Option::Some(_) => spec_legacy_suffixes(pkg_dir, m@, 0, base, fs),
            }
        },
        Option::None => spec_legacy_index(pkg_dir, 0, base, fs),
    }
}

/// Probe the index files from candidate `i` on (see [`spec_legacy_index`]).
fn legacy_index(pkg_dir: &str, i: usize, base: &str, fs: &Fs) -> (r: Outcome)
    requires
        i <= 3,
    ensures
        outcome_matches(r, spec_legacy_index(pkg_dir@, i as int, base@, *fs)),
    decreases 3 - i,
{
    if i >= 3 {
        return Outcome::Failed(not_found(pkg_dir, base));
    }
    let guess = join_rel(pkg_dir, index_name_at(i));
    match fs_stat(fs, guess.as_str()) {
        None => Outcome::NeedStat(guess),
        Some(FsKind::File) => Outcome::Resolved(guess),
        Some(_) => legacy_index(pkg_dir, i + 1, base, fs),
    }
}

/// Probe the main's suffix variants from suffix `i` on (see
/// [`spec_legacy_suffixes`]).
fn legacy_suffixes(pkg_dir: &str, main: &str, i: usize, base: &str, fs: &Fs) -> (r: Outcome)
    requires
        i <= 6,
    ensures
        outcome_matches(r, spec_legacy_suffixes(pkg_dir@, main@, i as int, base@, *fs)),
    decreases 6 - i,
{
    if i >= 6 {
        return legacy_index(pkg_dir, 0, base, fs);
    }
    let with_suffix = concat2(main, suffix_at(i));
    let guess = join_rel(pkg_dir, with_suffix.as_str());
    match fs_stat(fs, guess.as_str()) {
        None => Outcome::NeedStat(guess),
        Some(FsKind::File) => Outcome::Resolved(guess),
        Some(_) => legacy_suffixes(pkg_dir, main, i + 1, base, fs),
    }
}

/// Resolve a package's entry point without an "exports" field, per
/// [`spec_legacy_main`]: the literal main first, then its suffix variants in
/// [`spec_suffix`]'s order taking the first that is a file on disk, then the
/// index files, else `ModuleNotFound` naming the package directory and the
/// referrer.
pub fn legacy_main_resolve(pkg_dir: &str, main: Option<&String>, base: &str, fs: &Fs) -> (r:
    Outcome)
    ensures
        outcome_matches(
            r,
            spec_legacy_main(
                pkg_dir@,
                match main {
                    Option::Some(m) => Option::Some(*m),
                    Option::None => Option::None::<String>,
                },
                base@,
                *fs,
            ),
        ),
{
    match main {
        Some(m) => {
            let guess = join_rel(pkg_dir, m.as_str());
            match fs_stat(fs, guess.as_str()) {
                None => Outcome::NeedStat(guess),
                Some(FsKind::File) => Outcome::Resolved(guess),
                Some(_) => legacy_suffixes(pkg_dir, m.as_str(), 0, base, fs),
            }
        },
        None => legacy_index(pkg_dir, 0, base, fs),
    }
}

} // verus!
