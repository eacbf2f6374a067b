//! The wildcard pattern matcher shared by "exports" and "imports" resolution:
//! which keys are candidates for a subpath, the tie-break comparator, and the
//! best-match search with its captured substring.

use vstd::prelude::*;
use vstd::string::*;
use crate::json::JsonValue;
use crate::strings::{ends_with_str, find_char, find_char_from, idx_of, spec_ends_with,
    spec_starts_with, starts_with_str};

verus! {

/// A key's static prefix length: up to and including its first `*`, or the
/// whole key where it has none.
pub open spec fn spec_base_len(k: Seq<char>) -> int {
    match idx_of(k, 0, '*') {
        Option::Some(i) => i + 1,
        Option::None => k.len() as int,
    }
}

/// Position of a key's first `*` (meaningful only for keys that have one).
pub open spec fn spec_star_index(k: Seq<char>) -> int {
    match idx_of(k, 0, '*') {
        Option::Some(i) => i,
        Option::None => k.len() as int,
    }
}

/// The tie-break comparator between two keys: `-1` prefers `a`, `1` prefers
/// `b`, `0` keeps the first seen. The key with the longer static prefix wins;
/// on a tie a key without a wildcard wins; between two wildcard keys the
/// shorter full key wins.
pub open spec fn spec_pattern_key_compare(a: Seq<char>, b: Seq<char>) -> int {
    if spec_base_len(a) > spec_base_len(b) {
        -1
    } else if spec_base_len(b) > spec_base_len(a) {
        1
    } else if idx_of(a, 0, '*') is None {
        -1
    } else if idx_of(b, 0, '*') is None {
        1
    } else if a.len() < b.len() {
        -1
    } else if b.len() < a.len() {
        1
    } else {
        0
    }
}

/// A key's static prefix length (see [`spec_base_len`]).
fn base_len(k: &str) -> (r: usize)
    ensures
        r as int == spec_base_len(k@),
{
    let len = k.unicode_len();
    match find_char(k, '*') {
        Some(i) => i + 1,
        None => len,
    }
}

/// Compare two keys for pattern specificity (see
/// [`spec_pattern_key_compare`]).
pub fn pattern_key_compare(a: &str, b: &str) -> (r: i32)
    ensures
        r as int == spec_pattern_key_compare(a@, b@),
{
    let base_a = base_len(a);
    let base_b = base_len(b);
    if base_a > base_b {
        return -1;
    }
    if base_b > base_a {
        return 1;
    }
    if find_char(a, '*').is_none() {
        return -1;
    }
    if find_char(b, '*').is_none() {
        return 1;
    }
    let la = a.unicode_len();
    let lb = b.unicode_len();
    if la < lb {
        return -1;
    }
    if lb < la {
        return 1;
    }
    0
}

/// A key can match the subpath: it holds a `*` that is its last `*`, the
/// subpath begins with the part before the `*`, ends with the part after it,
/// and is longer than the key.
pub open spec fn spec_is_pattern_candidate(key: Seq<char>, subpath: Seq<char>) -> bool {
    match idx_of(key, 0, '*') {
        Option::None => false,
        Option::Some(pi) => spec_starts_with(subpath, key.subrange(0, pi)) && subpath.len()
            > key.len() && spec_ends_with(subpath, key.subrange(pi + 1, key.len() as int)) && idx_of(
            key,
            pi + 1,
            '*',
        ) is None,
    }
}

/// The substring of the subpath standing where the key's `*` stands: from the
/// wildcard position to where the key's trailer begins.
pub open spec fn spec_pattern_capture(key: Seq<char>, subpath: Seq<char>) -> Seq<char> {
    let pi = spec_star_index(key);
    subpath.subrange(pi, subpath.len() - (key.len() - pi - 1))
}

/// Whether `key` can match `subpath` (see [`spec_is_pattern_candidate`]).
pub fn is_pattern_candidate(key: &str, subpath: &str) -> (r: bool)
    ensures
        r == spec_is_pattern_candidate(key@, subpath@),
{
    let klen = key.unicode_len();
    let slen = subpath.unicode_len();
    match find_char(key, '*') {
        None => false,
        Some(pi) => {
            let prefix = key.substring_char(0, pi);
            let trailer = key.substring_char(pi + 1, klen);
            starts_with_str(subpath, prefix) && slen > klen && ends_with_str(subpath, trailer)
                && find_char_from(key, pi + 1, '*').is_none()
        },
    }
}

/// The capture for a candidate key (see [`spec_pattern_capture`]).
pub fn pattern_capture(key: &str, subpath: &str) -> (r: String)
    requires
        spec_is_pattern_candidate(key@, subpath@),
    ensures
        r@ == spec_pattern_capture(key@, subpath@),
{
    let klen = key.unicode_len();
    let slen = subpath.unicode_len();
    let pi = match find_char(key, '*') {
        Some(i) => i,
        None => 0,
    };
    let cap = subpath.substring_char(pi, slen - (klen - pi - 1));
    cap.to_owned()
}

/// The best key after considering entries from `i` on, starting from `cur`:
/// each candidate replaces the best so far exactly where the comparator
/// prefers it.
pub open spec fn spec_best_key(
    entries: Seq<(String, JsonValue)>,
    subpath: Seq<char>,
    i: int,
    cur: Option<String>,
) -> Option<String>
    decreases entries.len() - i,
{
    if i < 0 || i >= entries.len() {
        cur
    } else {
        let k = entries[i].0;
        let better = spec_is_pattern_candidate(k@, subpath) && match cur {
            Option::None => true,
            Option::Some(c) => spec_pattern_key_compare(c@, k@) == 1,
        };
        spec_best_key(entries, subpath, i + 1, if better {
            Option::Some(k)
        } else {
            cur
        })
    }
}

/// The key that pattern matching selects for `subpath` among the object's
/// keys, if any.
pub open spec fn spec_best_match(entries: Seq<(String, JsonValue)>, subpath: Seq<char>) -> Option<
    String,
> {
    spec_best_key(entries, subpath, 0, Option::None)
}

/// Run the pattern matcher over the object's keys: the selected key and the
/// captured substring.
pub fn best_match(entries: &Vec<(String, JsonValue)>, subpath: &str) -> (r: Option<
    (String, String),
>)
    ensures
        match r {
            Option::Some(pair) => spec_best_match(entries@, subpath@) == Option::Some(pair.0)
                && spec_is_pattern_candidate(pair.0@, subpath@) && pair.1@ == spec_pattern_capture(
                pair.0@,
                subpath@,
            ),
            Option::None => spec_best_match(entries@, subpath@) is None,
        },
{
    let n = entries.len();
    let mut best: Option<usize> = None;
    let mut i: usize = 0;
    while i < n
        invariant
            i <= n,
            n == entries@.len(),
            match best {
                Option::Some(bi) => bi < i && spec_is_pattern_candidate(
                    entries@[bi as int].0@,
                    subpath@,
                ) && spec_best_match(entries@, subpath@) == spec_best_key(
                    entries@,
                    subpath@,
                    i as int,
                    Option::Some(entries@[bi as int].0),
                ),
                Option::None => spec_best_match(entries@, subpath@) == spec_best_key(
                    entries@,
                    subpath@,
                    i as int,
                    Option::None,
                ),
            },
        decreases n - i,
    {
        let candidate = is_pattern_candidate(entries[i].0.as_str(), subpath);
        let better = candidate && match best {
            Some(bi) => pattern_key_compare(entries[bi].0.as_str(), entries[i].0.as_str()) == 1,
            None => true,
        };
        if better {
            best = Some(i);
        }
        i += 1;
    }
    match best {
        Some(bi) => {
            let key = entries[bi].0.clone();
            let cap = pattern_capture(key.as_str(), subpath);
            Some((key, cap))
        },
        None => None,
    }
}

} // verus!
