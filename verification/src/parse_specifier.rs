//! Splitting a bare specifier into its package name and package subpath,
//! with scoped (`@scope/name`) packages consuming two `/`-delimited segments.

use vstd::prelude::*;
use vstd::string::*;
use crate::errors::{err_invalid_module_specifier, msg_invalid_module_specifier, ErrorKind,
    ResolveError};
use crate::strings::{concat2, contains_char, find_char, find_char_from, idx_of};

verus! {

/// Mathematical image of [`parse_specifier`]: the package name and the
/// package subpath (`.` plus the remainder, or plain `.`), or nothing for an
/// invalid package name (empty, scoped without `/`, or holding `%` or `\`).
pub open spec fn spec_parse_specifier(s: Seq<char>) -> Option<(Seq<char>, Seq<char>)> {
    if s.len() == 0 {
        Option::None
    } else if s[0] == '@' && idx_of(s, 0, '/') is None {
        Option::None
    } else {
        let sep = if s[0] == '@' {
            match idx_of(s, 0, '/') {
                Option::Some(j) => idx_of(s, j + 1, '/'),
                Option::None => Option::None,
            }
        } else {
            idx_of(s, 0, '/')
        };
        let name = match sep {
            Option::Some(j) => s.subrange(0, j),
            Option::None => s,
        };
        if idx_of(name, 0, '%') is Some || idx_of(name, 0, '\\') is Some {
            Option::None
        } else {
            let subpath = match sep {
                Option::Some(j) => "."@ + s.subrange(j, s.len() as int),
                Option::None => "."@,
            };
            Option::Some((name, subpath))
        }
    }
}

/// Split a bare specifier into package name and package subpath, per
/// [`spec_parse_specifier`].
pub fn parse_specifier(specifier: &str) -> (r: Option<(String, String)>)
    ensures
        match r {
            Option::Some(pair) => spec_parse_specifier(specifier@) == Option::Some(
                (pair.0@, pair.1@),
            ),
            Option::None => spec_parse_specifier(specifier@) is None,
        },
{
    let len = specifier.unicode_len();
    if len == 0 {
        return None;
    }
    let scoped = specifier.get_char(0) == '@';
    let first = find_char(specifier, '/');
    if scoped && first.is_none() {
        return None;
    }
    let sep: Option<usize> = if scoped {
        match first {
            Some(j) => find_char_from(specifier, j + 1, '/'),
            None => None,
        }
    } else {
        first
    };
    let name: &str = match sep {
        Some(j) => specifier.substring_char(0, j),
        None => specifier,
    };
    if contains_char(name, '%') || contains_char(name, '\\') {
        return None;
    }
    let subpath: String = match sep {
        Some(j) => concat2(".", specifier.substring_char(j, len)),
        None => ".".to_owned(),
    };
    Some((name.to_owned(), subpath))
}

/// Split a bare specifier as [`parse_specifier`] does, with the scoped flag,
/// turning an invalid package name into its error.
pub fn parse_package_name(specifier: &str, base: &str) -> (r: Result<
    (String, String, bool),
    ResolveError,
>)
    ensures
        match spec_parse_specifier(specifier@) {
            Option::Some(pair) => r matches Ok(t) && t.0@ == pair.0 && t.1@ == pair.1 && t.2 == (
            specifier@.len() > 0 && specifier@[0] == '@'),
            Option::None => r matches Err(e) && e.kind == ErrorKind::InvalidModuleSpecifier
                && e.message@ == msg_invalid_module_specifier(
                specifier@,
                "is not a valid package name"@,
                Option::Some(base@),
            ),
        },
{
    let is_scoped = specifier.unicode_len() > 0 && specifier.get_char(0) == '@';
    match parse_specifier(specifier) {
        Some(pair) => Ok((pair.0, pair.1, is_scoped)),
        None => Err(
            err_invalid_module_specifier(specifier, "is not a valid package name", Some(base)),
        ),
    }
}

} // verus!
