//! A module-specifier resolver: turns an import string (relative, internal
//! `#name`, or bare/scoped package specifier) into a concrete file path,
//! following the `node_modules` package layout with `package.json`
//! "exports"/"imports" trees, condition matching, wildcard patterns and the
//! legacy "main" fallback.
//!
//! The resolver is a pure function of the specifier, the referrer, the active
//! conditions and a snapshot of filesystem answers. Where the snapshot lacks
//! an answer, the resolver asks for it (`Outcome::NeedStat` / `NeedRead`); a
//! thin driver outside the library performs the query and re-runs.

use vstd::prelude::*;

pub mod errors;
pub mod exports;
pub mod fs;
pub mod imports;
pub mod json;
pub mod laws;
pub mod legacy;
pub mod outcome;
pub mod package_json;
pub mod parse_specifier;
pub mod pattern;
pub mod resolve;
pub mod strings;

use vstd::string::*;
use crate::errors::{err_invalid_module_specifier, msg_invalid_module_specifier, ErrorKind,
    SpecErr};
use crate::fs::Fs;
use crate::imports::{package_imports_resolve, spec_imports_resolve};
use crate::outcome::{outcome_matches, Outcome, SpecOutcome};
use crate::resolve::{file_extension_probe, package_resolve, spec_package_resolve, spec_probe};
use crate::strings::{has_dot_slash, has_dotdot_slash, join_rel, parent_dir, spec_has_dot_slash,
    spec_has_dotdot_slash, spec_join, spec_parent_dir};

verus! {

/// The largest number of bare-specifier re-entries ("imports" or "exports"
/// targets that name another package) followed before resolution gives up.
pub const MAX_REENTRY: u32 = 32;

/// Mathematical image of [`resolve`] at a given re-entry budget: an absolute
/// specifier fails fast; a relative one is joined onto the referrer's
/// directory and probed; `#names` go through the imports map; everything else
/// is a bare package specifier.
pub open spec fn spec_resolve(
    specifier: Seq<char>,
    referrer: Seq<char>,
    conds: Seq<String>,
    fs: Fs,
    fuel: nat,
) -> SpecOutcome {
    if specifier.len() >= 1 && specifier[0] == '/' {
        SpecOutcome::Failed(
            SpecErr {
                kind: ErrorKind::InvalidModuleSpecifier,
                message: msg_invalid_module_specifier(
                    specifier,
                    "absolute specifiers are not supported"@,
                    Option::Some(referrer),
                ),
            },
        )
    } else if spec_has_dot_slash(specifier) || spec_has_dotdot_slash(specifier) {
        spec_probe(spec_join(spec_parent_dir(referrer), specifier), referrer, fs)
    } else if specifier.len() >= 1 && specifier[0] == '#' {
        spec_imports_resolve(specifier, referrer, conds, fs, fuel)
    } else {
        spec_package_resolve(specifier, referrer, conds, fs, fuel)
    }
}

/// Resolve a module specifier against a referrer and a set of active
/// conditions, over the filesystem snapshot `fs`, per [`spec_resolve`] at the
/// [`MAX_REENTRY`] budget. The result is a pure function of the four
/// arguments: where the snapshot lacks an answer, the outcome names the query
/// to run.
pub fn resolve(specifier: &str, referrer: &str, conditions: &Vec<String>, fs: &Fs) -> (r: Outcome)
    ensures
        outcome_matches(
            r,
            spec_resolve(specifier@, referrer@, conditions@, *fs, MAX_REENTRY as nat),
        ),
{
    let len = specifier.unicode_len();
    if len >= 1 && specifier.get_char(0) == '/' {
        return Outcome::Failed(
            err_invalid_module_specifier(
                specifier,
                "absolute specifiers are not supported",
                Some(referrer),
            ),
        );
    }
    if has_dot_slash(specifier) || has_dotdot_slash(specifier) {
        let joined = join_rel(parent_dir(referrer), specifier);
        return file_extension_probe(joined.as_str(), referrer, fs);
    }
    if len >= 1 && specifier.get_char(0) == '#' {
        return package_imports_resolve(specifier, referrer, conditions, fs, MAX_REENTRY);
    }
    package_resolve(specifier, referrer, conditions, fs, MAX_REENTRY)
}

} // verus!
