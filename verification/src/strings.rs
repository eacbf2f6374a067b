//! Character-level string helpers: prefix/suffix tests, character search,
//! path joining, parent-directory stepping, `*` substitution and the
//! traversal-segment guard. Each executable helper is specified against a
//! spec-level function over `Seq<char>`.

use vstd::prelude::*;
use vstd::string::*;

verus! {

/// `p` is a prefix of `s`.
pub open spec fn spec_starts_with(s: Seq<char>, p: Seq<char>) -> bool {
    p.len() <= s.len() && (forall|i: int| 0 <= i < p.len() ==> s[i] == p[i])
}

/// `p` is a suffix of `s`.
pub open spec fn spec_ends_with(s: Seq<char>, p: Seq<char>) -> bool {
    p.len() <= s.len() && (forall|i: int| 0 <= i < p.len() ==> s[s.len() - p.len() + i] == p[i])
}

/// Index of the first occurrence of `c` in `s` at or after position `i`.
pub open spec fn idx_of(s: Seq<char>, i: int, c: char) -> Option<int>
    decreases s.len() - i,
{
    if i < 0 || i >= s.len() {
        None
    } else if s[i] == c {
        Some(i)
    } else {
        idx_of(s, i + 1, c)
    }
}

/// A found index lies between the search start and the end of the string.
pub proof fn lemma_idx_of_bounds(s: Seq<char>, i: int, c: char)
    ensures
        idx_of(s, i, c) matches Option::Some(j) ==> i <= j < s.len() && s[j] == c,
    decreases s.len() - i,
{
    if 0 <= i < s.len() && s[i] != c {
        lemma_idx_of_bounds(s, i + 1, c);
    }
}

/// Index of the last occurrence of `c` in `s` at or before position `i`.
pub open spec fn last_idx_of(s: Seq<char>, i: int, c: char) -> Option<int>
    decreases i + 1,
{
    if i < 0 || i >= s.len() {
        None
    } else if s[i] == c {
        Some(i)
    } else {
        last_idx_of(s, i - 1, c)
    }
}

/// The directory part of a path: everything before the last `/`, with the
/// filesystem root `/` as its own parent's name, and the empty string for a
/// path without any `/`.
pub open spec fn spec_parent_dir(s: Seq<char>) -> Seq<char> {
    match last_idx_of(s, s.len() - 1, '/') {
        Option::None => Seq::empty(),
        Option::Some(j) => if j == 0 { s.subrange(0, 1) } else { s.subrange(0, j) },
    }
}

/// The final `/`-delimited segment of a path (the whole path if it has no `/`).
pub open spec fn spec_last_segment(s: Seq<char>) -> Seq<char> {
    match last_idx_of(s, s.len() - 1, '/') {
        Option::None => s,
        Option::Some(j) => s.subrange(j + 1, s.len() as int),
    }
}

/// `rel` begins with the two characters `./`.
pub open spec fn spec_has_dot_slash(rel: Seq<char>) -> bool {
    rel.len() >= 2 && rel[0] == '.' && rel[1] == '/'
}

/// `s` begins with the three characters `../`.
pub open spec fn spec_has_dotdot_slash(s: Seq<char>) -> bool {
    s.len() >= 3 && s[0] == '.' && s[1] == '.' && s[2] == '/'
}

/// `s` ends with `/`.
pub open spec fn spec_ends_slash(s: Seq<char>) -> bool {
    s.len() > 0 && s[s.len() - 1] == '/'
}

/// Join a relative segment onto a base path: a leading `./` on the segment is
/// dropped, and exactly one `/` separates the two parts.
pub open spec fn spec_join(base: Seq<char>, rel: Seq<char>) -> Seq<char> {
    let r = if spec_has_dot_slash(rel) {
        rel.subrange(2, rel.len() as int)
    } else {
        rel
    };
    if r.len() == 0 {
        base
    } else if base.len() == 0 {
        r
    } else if base[base.len() - 1] == '/' {
        base + r
    } else {
        base + seq!['/'] + r
    }
}

/// `s` with every `*` replaced by `fill` (occurrences inside `fill` itself are
/// not replaced again).
pub open spec fn spec_replace_star(s: Seq<char>, fill: Seq<char>) -> Seq<char>
    decreases s.len(),
    via spec_replace_star_decreases
{
    match idx_of(s, 0, '*') {
        Option::None => s,
        Option::Some(i) => s.subrange(0, i) + fill + spec_replace_star(
            s.subrange(i + 1, s.len() as int),
            fill,
        ),
    }
}

#[via_fn]
proof fn spec_replace_star_decreases(s: Seq<char>, fill: Seq<char>) {
    lemma_idx_of_bounds(s, 0, '*');
}

/// A path segment that must never appear in a package target: `.`, `..` or
/// `node_modules`.
pub open spec fn spec_is_bad_segment(t: Seq<char>) -> bool {
    t == "."@ || t == ".."@ || t == "node_modules"@
}

/// Some `/`-delimited segment of `s` is a traversal segment.
pub open spec fn spec_has_invalid_segment(s: Seq<char>) -> bool
    decreases s.len(),
    via spec_has_invalid_segment_decreases
{
    match idx_of(s, 0, '/') {
        Option::None => spec_is_bad_segment(s),
        Option::Some(k) => spec_is_bad_segment(s.subrange(0, k)) || spec_has_invalid_segment(
            s.subrange(k + 1, s.len() as int),
        ),
    }
}

#[via_fn]
proof fn spec_has_invalid_segment_decreases(s: Seq<char>) {
    lemma_idx_of_bounds(s, 0, '/');
}

/// String equality, decided character by character.
pub fn str_eq(a: &str, b: &str) -> (r: bool)
    ensures
        r == (a@ == b@),
{
    let la = a.unicode_len();
    let lb = b.unicode_len();
    if la != lb {
        return false;
    }
    let mut i: usize = 0;
    while i < la
        invariant
            i <= la,
            la == a@.len(),
            la == b@.len(),
            forall|j: int| 0 <= j < i ==> a@[j] == b@[j],
        decreases la - i,
    {
        if a.get_char(i) != b.get_char(i) {
            return false;
        }
        i += 1;
    }
    proof {
        assert(a@ =~= b@);
    }
    true
}

/// Prefix test, decided character by character.
pub fn starts_with_str(s: &str, p: &str) -> (r: bool)
    ensures
        r == spec_starts_with(s@, p@),
{
    let ls = s.unicode_len();
    let lp = p.unicode_len();
    if lp > ls {
        return false;
    }
    let mut i: usize = 0;
    while i < lp
        invariant
            i <= lp,
            lp <= ls,
            ls == s@.len(),
            lp == p@.len(),
            forall|j: int| 0 <= j < i ==> s@[j] == p@[j],
        decreases lp - i,
    {
        if s.get_char(i) != p.get_char(i) {
            return false;
        }
        i += 1;
    }
    true
}

/// Suffix test, decided character by character.
pub fn ends_with_str(s: &str, p: &str) -> (r: bool)
    ensures
        r == spec_ends_with(s@, p@),
{
    let ls = s.unicode_len();
    let lp = p.unicode_len();
    if lp > ls {
        return false;
    }
    let off = ls - lp;
    let mut i: usize = 0;
    while i < lp
        invariant
            i <= lp,
            lp <= ls,
            off == ls - lp,
            ls == s@.len(),
            lp == p@.len(),
            forall|j: int| 0 <= j < i ==> s@[off + j] == p@[j],
        decreases lp - i,
    {
        if s.get_char(off + i) != p.get_char(i) {
            return false;
        }
        i += 1;
    }
    true
}

/// First position of `c` in `s` at or after `from`, if any.
pub fn find_char_from(s: &str, from: usize, c: char) -> (r: Option<usize>)
    ensures
        match r {
            Option::Some(i) => from <= i < s@.len() && idx_of(s@, from as int, c) == Option::Some(
                i as int,
            ),
            Option::None => idx_of(s@, from as int, c) is None,
        },
{
    let len = s.unicode_len();
    let mut i: usize = from;
    while i < len
        invariant
            from <= i,
            len == s@.len(),
            i <= len || i == from,
            idx_of(s@, from as int, c) == idx_of(s@, i as int, c),
        decreases len - i,
    {
        if s.get_char(i) == c {
            return Some(i);
        }
        i += 1;
    }
    None
}

/// First position of `c` in `s`, if any.
pub fn find_char(s: &str, c: char) -> (r: Option<usize>)
    ensures
        match r {
            Option::Some(i) => i < s@.len() && idx_of(s@, 0, c) == Option::Some(i as int),
            Option::None => idx_of(s@, 0, c) is None,
        },
{
    find_char_from(s, 0, c)
}

/// Last position of `c` in `s`, if any.
pub fn rfind_char(s: &str, c: char) -> (r: Option<usize>)
    ensures
        match r {
            Option::Some(i) => i < s@.len() && last_idx_of(s@, s@.len() - 1, c) == Option::Some(
                i as int,
            ),
            Option::None => last_idx_of(s@, s@.len() - 1, c) is None,
        },
{
    let len = s.unicode_len();
    let mut i: usize = len;
    while i > 0
        invariant
            i <= len,
            len == s@.len(),
            last_idx_of(s@, len - 1, c) == last_idx_of(s@, i - 1, c),
        decreases i,
    {
        if s.get_char(i - 1) == c {
            return Some(i - 1);
        }
        i -= 1;
    }
    None
}

/// Whether `c` occurs in `s`.
pub fn contains_char(s: &str, c: char) -> (r: bool)
    ensures
        r == (idx_of(s@, 0, c) is Some),
{
    match find_char(s, c) {
        Some(_) => true,
        None => false,
    }
}

/// `s` begins with the two characters `./`.
pub fn has_dot_slash(s: &str) -> (r: bool)
    ensures
        r == spec_has_dot_slash(s@),
{
    s.unicode_len() >= 2 && s.get_char(0) == '.' && s.get_char(1) == '/'
}

/// `s` begins with the three characters `../`.
pub fn has_dotdot_slash(s: &str) -> (r: bool)
    ensures
        r == spec_has_dotdot_slash(s@),
{
    s.unicode_len() >= 3 && s.get_char(0) == '.' && s.get_char(1) == '.' && s.get_char(2) == '/'
}

/// `s` ends with `/`.
pub fn ends_slash(s: &str) -> (r: bool)
    ensures
        r == spec_ends_slash(s@),
{
    let len = s.unicode_len();
    len > 0 && s.get_char(len - 1) == '/'
}

/// The directory part of a path (see [`spec_parent_dir`]).
pub fn parent_dir<'a>(s: &'a str) -> (r: &'a str)
    ensures
        r@ == spec_parent_dir(s@),
{
    match rfind_char(s, '/') {
        None => {
            let r = s.substring_char(0, 0);
            proof {
                assert(r@ =~= spec_parent_dir(s@));
            }
            r
        },
        Some(j) => {
            if j == 0 {
                s.substring_char(0, 1)
            } else {
                s.substring_char(0, j)
            }
        },
    }
}

/// The final `/`-delimited segment of a path (see [`spec_last_segment`]).
pub fn last_segment<'a>(s: &'a str) -> (r: &'a str)
    ensures
        r@ == spec_last_segment(s@),
{
    let len = s.unicode_len();
    match rfind_char(s, '/') {
        None => s,
        Some(j) => s.substring_char(j + 1, len),
    }
}

/// Concatenation of two strings.
pub fn concat2(a: &str, b: &str) -> (r: String)
    ensures
        r@ == a@ + b@,
{
    let mut out = a.to_owned();
    out.append(b);
    out
}

/// Join a relative segment onto a base path (see [`spec_join`]).
pub fn join_rel(base: &str, rel: &str) -> (r: String)
    ensures
        r@ == spec_join(base@, rel@),
{
    let rl = rel.unicode_len();
    let r: &str = if has_dot_slash(rel) {
        rel.substring_char(2, rl)
    } else {
        rel
    };
    let bl = base.unicode_len();
    if r.unicode_len() == 0 {
        base.to_owned()
    } else if bl == 0 {
        r.to_owned()
    } else if base.get_char(bl - 1) == '/' {
        concat2(base, r)
    } else {
        let mut out = base.to_owned();
        out.append("/");
        out.append(r);
        proof {
            reveal_strlit("/");
            assert(out@ =~= base@ + seq!['/'] + r@);
        }
        out
    }
}

/// `s` with every `*` replaced by `fill` (see [`spec_replace_star`]).
pub fn replace_star(s: &str, fill: &str) -> (r: String)
    ensures
        r@ == spec_replace_star(s@, fill@),
    decreases s@.len(),
{
    let len = s.unicode_len();
    match find_char(s, '*') {
        None => s.to_owned(),
        Some(i) => {
            let head = s.substring_char(0, i);
            let tail = s.substring_char(i + 1, len);
            let rest = replace_star(tail, fill);
            let mut out = head.to_owned();
            out.append(fill);
            out.append(rest.as_str());
            proof {
                assert(out@ =~= s@.subrange(0, i as int) + fill@ + spec_replace_star(
                    s@.subrange(i + 1, s@.len() as int),
                    fill@,
                ));
            }
            out
        },
    }
}

/// One `/`-delimited segment equals `.`, `..` or `node_modules`.
fn is_bad_segment(t: &str) -> (r: bool)
    ensures
        r == spec_is_bad_segment(t@),
{
    str_eq(t, ".") || str_eq(t, "..") || str_eq(t, "node_modules")
}

/// Whether some `/`-delimited segment of `s` is a traversal segment (see
/// [`spec_has_invalid_segment`]).
pub fn has_invalid_segment(s: &str) -> (r: bool)
    ensures
        r == spec_has_invalid_segment(s@),
    decreases s@.len(),
{
    let len = s.unicode_len();
    match find_char(s, '/') {
        None => is_bad_segment(s),
        Some(k) => {
            if is_bad_segment(s.substring_char(0, k)) {
                true
            } else {
                has_invalid_segment(s.substring_char(k + 1, len))
            }
        },
    }
}

} // verus!
