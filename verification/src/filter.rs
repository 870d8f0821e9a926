//! The inclusion rules of a scan. Each rule is a predicate of its own; an
//! entry is admitted when it passes every rule that applies to it.

use vstd::prelude::*;
use crate::entry::{
    class_of, is_effectively_empty, listing_is_empty, opt_texts, texts, EntryClass, EntryMeta,
    WalkEntry, WalkEntryView,
};
use crate::options::{ScanOptions, ScanOptionsView, BYTES_PER_MB};
use crate::text::{chars_eq_ignoring_case, chars_of, extension_chars, extension_of, same_ignoring_case};

verus! {

/// Minimum size: a file passes when it is at least as large as the
/// threshold.
pub open spec fn passes_min_size(min_size_mb: Option<u64>, size: u64) -> bool {
    match min_size_mb {
        Some(mb) => size >= mb * BYTES_PER_MB,
        None => true,
    }
}

/// Some entry of `allowed` equals `ext` up to ASCII case.
pub open spec fn lists_extension(allowed: Seq<Seq<char>>, ext: Seq<char>) -> bool {
    exists|i: int| 0 <= i < allowed.len() && same_ignoring_case(#[trigger] allowed[i], ext)
}

/// The extension by which a file is matched: that of its name, or the
/// empty one where the name's extension was not valid UTF-8.
pub open spec fn matching_extension(name: Seq<char>, extension_is_text: bool) -> Seq<char> {
    if extension_is_text {
        extension_of(name)
    } else {
        Seq::empty()
    }
}

/// Extension allow-list: a file passes when the list is absent or empty, or
/// when it holds the extension by which the file is matched.
pub open spec fn passes_extension(
    extensions: Option<Seq<Seq<char>>>,
    name: Seq<char>,
    extension_is_text: bool,
) -> bool {
    match extensions {
        Some(allowed) => allowed.len() == 0 || lists_extension(
            allowed,
            matching_extension(name, extension_is_text),
        ),
        None => true,
    }
}

/// A directory is listed for a scan only when the listing can decide
/// something: the entry is a directory that is neither a symbolic link nor
/// a system artifact, and empty directories are asked for.
pub open spec fn needs_listing(o: ScanOptionsView, e: WalkEntryView) -> bool {
    o.wants_empty_dirs() && class_of(e) == EntryClass::Directory
}

/// An exclusive upper bound on a timestamp: passes when the timestamp is
/// strictly below the bound, and also when either of the two is absent.
pub open spec fn passes_before(bound: Option<u64>, stamp: Option<u64>) -> bool {
    match (bound, stamp) {
        (Some(b), Some(t)) => t < b,
        _ => true,
    }
}

/// The rules that apply to a file, taken together.
pub open spec fn admits_file(
    o: ScanOptionsView,
    name: Seq<char>,
    extension_is_text: bool,
    m: EntryMeta,
) -> bool {
    &&& passes_min_size(o.min_size_mb, m.len)
    &&& passes_extension(o.extensions, name, extension_is_text)
    &&& passes_before(o.created_before_ms, m.created_ms)
    &&& passes_before(o.modified_before_ms, m.modified_ms)
}

/// Directory admission: a directory passes only when empty directories are
/// asked for and it counts as empty.
pub open spec fn admits_directory(o: ScanOptionsView, children: Option<Seq<Seq<char>>>) -> bool {
    o.wants_empty_dirs() && is_effectively_empty(children)
}

/// Whether a scan with options `o` matches the entry `e`.
pub open spec fn admits(o: ScanOptionsView, e: WalkEntryView) -> bool {
    match class_of(e) {
        EntryClass::File => admits_file(o, e.name, e.extension_is_text, e.meta->0),
        EntryClass::Directory => admits_directory(o, e.children),
        _ => false,
    }
}

/// Evaluates the minimum-size rule.
pub fn check_min_size(min_size_mb: Option<u64>, size: u64) -> (r: bool)
    ensures
        r == passes_min_size(min_size_mb, size),
{
    match min_size_mb {
        Some(mb) => size / BYTES_PER_MB >= mb,
        None => true,
    }
}

/// Whether `allowed` holds `ext` up to ASCII case.
pub fn holds_extension(allowed: &Vec<String>, ext: &Vec<char>) -> (r: bool)
    ensures
        r == lists_extension(texts(allowed@), ext@),
{
    let mut i: usize = 0;
    while i < allowed.len()
        invariant
            i <= allowed.len(),
            forall|j: int| 0 <= j < i ==> !same_ignoring_case(#[trigger] texts(allowed@)[j], ext@),
        decreases allowed.len() - i,
    {
        let candidate = chars_of(allowed[i].as_str());
        if chars_eq_ignoring_case(&candidate, ext) {
            assert(same_ignoring_case(texts(allowed@)[i as int], ext@));
            return true;
        }
        i += 1;
    }
    false
}

/// Evaluates the extension rule.
pub fn check_extension(
    extensions: &Option<Vec<String>>,
    name: &str,
    extension_is_text: bool,
) -> (r: bool)
    ensures
        r == passes_extension(opt_texts(*extensions), name@, extension_is_text),
{
    match extensions {
        None => true,
        Some(allowed) => {
            if allowed.len() == 0 {
                return true;
            }
            let ext = if extension_is_text {
                let name_chars = chars_of(name);
                extension_chars(&name_chars)
            } else {
                Vec::new()
            };
            holds_extension(allowed, &ext)
        },
    }
}

/// Evaluates an exclusive upper bound on a timestamp.
pub fn check_before(bound: Option<u64>, stamp: Option<u64>) -> (r: bool)
    ensures
        r == passes_before(bound, stamp),
{
    match (bound, stamp) {
        (Some(b), Some(t)) => t < b,
        _ => true,
    }
}

/// Evaluates directory admission.
pub fn check_directory(options: &ScanOptions, children: &Option<Vec<String>>) -> (r: bool)
    ensures
        r == admits_directory(options@, opt_texts(*children)),
{
    options.includes_empty_dirs() && listing_is_empty(children)
}

/// Whether a directory is matched depends on nothing but the flag for
/// empty directories and the directory's listing: the size threshold, the
/// extension list and the two time bounds have no say.
pub proof fn directory_ignores_file_rules(o: ScanOptionsView, other: ScanOptionsView, e: WalkEntryView)
    requires
        class_of(e) == EntryClass::Directory,
        o.include_empty_dirs == other.include_empty_dirs,
    ensures
        admits(o, e) == admits(other, e),
{
}

/// Where no listing is needed, none can change the outcome: an entry is
/// matched alike with any listing and with none.
pub proof fn listing_matters_only_where_needed(
    o: ScanOptionsView,
    e: WalkEntryView,
    children: Option<Seq<Seq<char>>>,
)
    requires
        !needs_listing(o, e),
    ensures
        admits(o, WalkEntryView { children, ..e }) == admits(o, e),
{
}

impl ScanOptions {
    /// Whether the children of `entry` are to be listed before it is
    /// visited.
    pub fn wants_listing(&self, entry: &WalkEntry) -> (r: bool)
        ensures
            r == needs_listing(self@, entry@),
    {
        self.includes_empty_dirs() && match entry.classify() {
            EntryClass::Directory => true,
            _ => false,
        }
    }

    /// Whether a scan with these options matches `entry`.
    pub fn admits(&self, entry: &WalkEntry) -> (r: bool)
        ensures
            r == admits(self@, entry@),
    {
        match entry.classify() {
            EntryClass::File => {
                let m = entry.meta.unwrap();
                check_min_size(self.min_size_mb, m.len)
                    && check_extension(
                    &self.extensions,
                    entry.name.as_str(),
                    entry.extension_is_text,
                )
                    && check_before(self.created_before_ms, m.created_ms)
                    && check_before(self.modified_before_ms, m.modified_ms)
            },
            EntryClass::Directory => check_directory(self, &entry.children),
            _ => false,
        }
    }
}

} // verus!
