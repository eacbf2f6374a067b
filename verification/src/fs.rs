//! The filesystem snapshot a resolve call works against: a list of answered
//! stat queries and a list of answered read queries. The resolver never
//! touches the filesystem itself; where the snapshot lacks an answer it
//! reports which query to run.

use vstd::prelude::*;
use crate::strings::str_eq;

verus! {

/// What a stat query answered.
#[derive(Clone, Copy, Debug, PartialEq, Eq, Structural)]
pub enum FsKind {
    /// Nothing exists at the path.
    Missing,
    /// A regular file exists at the path.
    File,
    /// A directory exists at the path.
    Dir,
}

/// A snapshot of filesystem answers. `stats` maps a path to what exists
/// there; `reads` maps a path to its text, or `None` where the file could not
/// be read. The first entry for a path wins.
pub struct Fs {
    pub stats: Vec<(String, FsKind)>,
    pub reads: Vec<(String, Option<String>)>,
}

/// The first recorded stat answer for `path`, if any.
pub open spec fn spec_stat(fs: Fs, path: Seq<char>) -> Option<FsKind> {
    spec_stat_in(fs.stats@, path)
}

pub open spec fn spec_stat_in(entries: Seq<(String, FsKind)>, path: Seq<char>) -> Option<FsKind>
    decreases entries.len(),
{
    if entries.len() == 0 {
        Option::None
    } else if entries[0].0@ == path {
        Option::Some(entries[0].1)
    } else {
        spec_stat_in(entries.skip(1), path)
    }
}

/// The first recorded read answer for `path`, if any.
pub open spec fn spec_read(fs: Fs, path: Seq<char>) -> Option<Option<String>> {
    spec_read_in(fs.reads@, path)
}

pub open spec fn spec_read_in(entries: Seq<(String, Option<String>)>, path: Seq<char>) -> Option<
    Option<String>,
>
    decreases entries.len(),
{
    if entries.len() == 0 {
        Option::None
    } else if entries[0].0@ == path {
        Option::Some(entries[0].1)
    } else {
        spec_read_in(entries.skip(1), path)
    }
}

/// Look up the snapshot's stat answer for `path`.
pub fn fs_stat(fs: &Fs, path: &str) -> (r: Option<FsKind>)
    ensures
        r == spec_stat(*fs, path@),
{
    let n = fs.stats.len();
    let mut i: usize = 0;
    proof {
        assert(fs.stats@.skip(0) =~= fs.stats@);
    }
    while i < n
        invariant
            i <= n,
            n == fs.stats@.len(),
            spec_stat(*fs, path@) == spec_stat_in(fs.stats@.skip(i as int), path@),
        decreases n - i,
    {
        proof {
            assert(fs.stats@.skip(i as int)[0] == fs.stats@[i as int]);
            assert(fs.stats@.skip(i as int).skip(1) =~= fs.stats@.skip(i + 1));
        }
        if str_eq(fs.stats[i].0.as_str(), path) {
            return Some(fs.stats[i].1);
        }
        i += 1;
    }
    None
}

/// Look up the snapshot's read answer for `path`.
pub fn fs_read(fs: &Fs, path: &str) -> (r: Option<Option<String>>)
    ensures
        r == spec_read(*fs, path@),
{
    let n = fs.reads.len();
    let mut i: usize = 0;
    proof {
        assert(fs.reads@.skip(0) =~= fs.reads@);
    }
    while i < n
        invariant
            i <= n,
            n == fs.reads@.len(),
            spec_read(*fs, path@) == spec_read_in(fs.reads@.skip(i as int), path@),
        decreases n - i,
    {
        proof {
            assert(fs.reads@.skip(i as int)[0] == fs.reads@[i as int]);
            assert(fs.reads@.skip(i as int).skip(1) =~= fs.reads@.skip(i + 1));
        }
        if str_eq(fs.reads[i].0.as_str(), path) {
            let content: Option<String> = match &fs.reads[i].1 {
                Some(text) => Some(text.clone()),
                None => None,
            };
            return Some(content);
        }
        i += 1;
    }
    None
}

} // verus!
