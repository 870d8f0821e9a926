//! The configuration of one scan.

use vstd::prelude::*;
use crate::entry::{opt_texts, texts};
use crate::text::str_equal;

verus! {

/// The number of bytes in one megabyte, the unit of the size threshold.
pub const BYTES_PER_MB: u64 = 1048576;

/// The criteria of one scan. Every rule is optional; an absent rule
/// excludes nothing.
#[derive(Debug)]
pub struct ScanOptions {
    /// The directory below which the scan runs.
    pub target_dir: String,
    /// Files smaller than this many megabytes are left out.
    pub min_size_mb: Option<u64>,
    /// Files created at or after this instant are left out.
    pub created_before_ms: Option<u64>,
    /// Files modified at or after this instant are left out.
    pub modified_before_ms: Option<u64>,
    /// The extensions admitted, matched up to ASCII case. An empty list
    /// admits every extension.
    pub extensions: Option<Vec<String>>,
    /// Whether directories that hold nothing but system artifacts are
    /// matched.
    pub include_empty_dirs: Option<bool>,
    /// Paths that are neither visited nor descended into. The list stands
    /// for a set: neither order nor repetition means anything.
    pub whitelist: Option<Vec<String>>,
}

/// The mathematical content of `ScanOptions`.
pub struct ScanOptionsView {
    pub target_dir: Seq<char>,
    pub min_size_mb: Option<u64>,
    pub created_before_ms: Option<u64>,
    pub modified_before_ms: Option<u64>,
    pub extensions: Option<Seq<Seq<char>>>,
    pub include_empty_dirs: Option<bool>,
    pub whitelist: Option<Seq<Seq<char>>>,
}

impl View for ScanOptions {
    type V = ScanOptionsView;

    open spec fn view(&self) -> ScanOptionsView {
        ScanOptionsView {
            target_dir: self.target_dir@,
            min_size_mb: self.min_size_mb,
            created_before_ms: self.created_before_ms,
            modified_before_ms: self.modified_before_ms,
            extensions: opt_texts(self.extensions),
            include_empty_dirs: self.include_empty_dirs,
            whitelist: opt_texts(self.whitelist),
        }
    }
}

impl ScanOptionsView {
    /// The path is listed in the exclusion set, character for character.
    pub open spec fn excludes(self, path: Seq<char>) -> bool {
        match self.whitelist {
            Some(list) => list.contains(path),
            None => false,
        }
    }

    /// Whether empty directories are to be matched.
    pub open spec fn wants_empty_dirs(self) -> bool {
        self.include_empty_dirs == Some(true)
    }
}

/// Whether a list of strings holds `wanted`, character for character.
pub fn holds_text(list: &Vec<String>, wanted: &str) -> (r: bool)
    ensures
        r == texts(list@).contains(wanted@),
{
    let mut i: usize = 0;
    while i < list.len()
        invariant
            i <= list.len(),
            forall|j: int| 0 <= j < i ==> texts(list@)[j] != wanted@,
        decreases list.len() - i,
    {
        if str_equal(list[i].as_str(), wanted) {
            assert(texts(list@)[i as int] == wanted@);
            return true;
        }
        i += 1;
    }
    false
}

impl ScanOptions {
    /// Whether `path` is in the exclusion set. The match is on the exact
    /// path string.
    pub fn is_excluded(&self, path: &str) -> (r: bool)
        ensures
            r == self@.excludes(path@),
    {
        match &self.whitelist {
            None => false,
            Some(list) => holds_text(list, path),
        }
    }

    /// Whether directories that count as empty are to be matched.
    pub fn includes_empty_dirs(&self) -> (r: bool)
        ensures
            r == self@.wants_empty_dirs(),
    {
        match self.include_empty_dirs {
            Some(flag) => flag,
            None => false,
        }
    }
}

} // verus!
