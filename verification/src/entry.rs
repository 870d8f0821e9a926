//! What the engine is told about one filesystem entry, and how it classifies
//! that entry.

use vstd::prelude::*;
use crate::text::{eq_ignoring_case, same_ignoring_case};

verus! {

/// Facts read from an entry's metadata without following symbolic links.
/// Timestamps are in milliseconds since the Unix epoch and are absent where
/// the platform cannot report them.
#[derive(Clone, Copy, Debug, PartialEq, Eq)]
pub struct EntryMeta {
    pub is_symlink: bool,
    pub is_dir: bool,
    pub len: u64,
    pub created_ms: Option<u64>,
    pub modified_ms: Option<u64>,
}

/// One entry met during a walk of the tree.
///
/// `name` is the entry's file name as text; where the name is not valid
/// UTF-8, what cannot be read is replaced. `extension_is_text` says whether
/// the name's extension was valid UTF-8: one that was not counts as empty.
/// `meta` is `None` when the entry's metadata could not be read. `children`
/// holds the names of the entry's immediate children when it is a directory
/// that was listed, and is `None` when it was not or could not be listed.
#[derive(Debug)]
pub struct WalkEntry {
    pub path: String,
    pub name: String,
    pub extension_is_text: bool,
    pub meta: Option<EntryMeta>,
    pub children: Option<Vec<String>>,
}

/// The mathematical content of a `WalkEntry`.
pub struct WalkEntryView {
    pub path: Seq<char>,
    pub name: Seq<char>,
    pub extension_is_text: bool,
    pub meta: Option<EntryMeta>,
    pub children: Option<Seq<Seq<char>>>,
}

/// The contents of a list of strings.
pub open spec fn texts(v: Seq<String>) -> Seq<Seq<char>> {
    v.map_values(|s: String| s@)
}

/// The contents of an optional list of strings.
pub open spec fn opt_texts(v: Option<Vec<String>>) -> Option<Seq<Seq<char>>> {
    match v {
        Some(list) => Some(texts(list@)),
        None => None,
    }
}

impl View for WalkEntry {
    type V = WalkEntryView;

    open spec fn view(&self) -> WalkEntryView {
        WalkEntryView {
            path: self.path@,
            name: self.name@,
            extension_is_text: self.extension_is_text,
            meta: self.meta,
            children: opt_texts(self.children),
        }
    }
}

/// How an entry is treated by a scan.
#[derive(Clone, Copy, Debug, PartialEq, Eq)]
pub enum EntryClass {
    /// Its metadata could not be read.
    Unreadable,
    /// It is a symbolic link.
    Symlink,
    /// Its name is on the ignore list.
    SystemArtifact,
    /// A directory that is none of the above.
    Directory,
    /// Anything else: a candidate file.
    File,
}

/// A name is that of a system artifact when it matches an entry of the
/// ignore list up to ASCII case.
pub open spec fn is_artifact_name(name: Seq<char>) -> bool {
    same_ignoring_case(name, ".ds_store"@) || same_ignoring_case(name, "thumbs.db"@)
}

/// Every name in the list is that of a system artifact. An empty list
/// qualifies.
pub open spec fn only_artifacts(names: Seq<Seq<char>>) -> bool {
    forall|i: int| 0 <= i < names.len() ==> is_artifact_name(#[trigger] names[i])
}

/// A listed directory counts as empty when it holds nothing but system
/// artifacts. A directory that was not listed never counts as empty.
pub open spec fn is_effectively_empty(children: Option<Seq<Seq<char>>>) -> bool {
    match children {
        Some(names) => only_artifacts(names),
        None => false,
    }
}

/// The class of an entry.
pub open spec fn class_of(e: WalkEntryView) -> EntryClass {
    match e.meta {
        None => EntryClass::Unreadable,
        Some(m) => if m.is_symlink {
            EntryClass::Symlink
        } else if is_artifact_name(e.name) {
            EntryClass::SystemArtifact
        } else if m.is_dir {
            EntryClass::Directory
        } else {
            EntryClass::File
        },
    }
}

/// The size an entry contributes: its length in bytes for a file, zero for a
/// directory or an unreadable entry.
pub open spec fn size_of(e: WalkEntryView) -> u64 {
    match e.meta {
        Some(m) => if m.is_dir { 0 } else { m.len },
        None => 0,
    }
}

/// Whether `name` is on the ignore list of system artifacts.
pub fn is_system_artifact(name: &str) -> (r: bool)
    ensures
        r == is_artifact_name(name@),
{
    eq_ignoring_case(name, ".ds_store") || eq_ignoring_case(name, "thumbs.db")
}

/// Whether a list of child names holds nothing but system artifacts.
pub fn holds_only_artifacts(names: &Vec<String>) -> (r: bool)
    ensures
        r == only_artifacts(texts(names@)),
{
    let mut i: usize = 0;
    while i < names.len()
        invariant
            i <= names.len(),
            forall|j: int| 0 <= j < i ==> is_artifact_name(#[trigger] texts(names@)[j]),
        decreases names.len() - i,
    {
        if !is_system_artifact(names[i].as_str()) {
            assert(!is_artifact_name(texts(names@)[i as int]));
            return false;
        }
        i += 1;
    }
    true
}

/// Whether a directory with the given listing counts as empty.
pub fn listing_is_empty(children: &Option<Vec<String>>) -> (r: bool)
    ensures
        r == is_effectively_empty(opt_texts(*children)),
{
    match children {
        Some(names) => holds_only_artifacts(names),
        None => false,
    }
}

impl WalkEntry {
    /// Classifies the entry.
    pub fn classify(&self) -> (c: EntryClass)
        ensures
            c == class_of(self@),
    {
        match self.meta {
            None => EntryClass::Unreadable,
            Some(m) => {
                if m.is_symlink {
                    EntryClass::Symlink
                } else if is_system_artifact(self.name.as_str()) {
                    EntryClass::SystemArtifact
                } else if m.is_dir {
                    EntryClass::Directory
                } else {
                    EntryClass::File
                }
            },
        }
    }

    /// The size the entry contributes to a scan's total.
    pub fn size(&self) -> (s: u64)
        ensures
            s == size_of(self@),
    {
        match self.meta {
            Some(m) => if m.is_dir { 0 } else { m.len },
            None => 0,
        }
    }
}

} // verus!
