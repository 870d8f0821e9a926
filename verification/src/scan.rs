//! The scan: a walker that is fed the entries of a tree one by one, and the
//! aggregator that keeps the matched records and their total size.

use vstd::prelude::*;
use crate::entry::{size_of, WalkEntry, WalkEntryView};
use crate::filter::{admits, needs_listing};
use crate::ident::{fresh_id, ID_LENGTH};
use crate::options::{ScanOptions, ScanOptionsView};

verus! {

/// A progress snapshot is due whenever the number of entries visited
/// reaches a multiple of this.
pub const PROGRESS_INTERVAL: u64 = 50;

/// The text that the terminal progress snapshot carries in place of a path.
pub open spec fn completion_note() -> Seq<char> {
    "文件收集完毕，正在渲染..."@
}

/// One matched entry.
#[derive(Debug)]
pub struct FileInfo {
    pub id: String,
    pub name: String,
    pub path: String,
    pub size: u64,
    pub created_at: Option<u64>,
    pub modified_at: Option<u64>,
    pub is_dir: bool,
}

/// The mathematical content of a `FileInfo`.
pub struct FileInfoView {
    pub id: Seq<char>,
    pub name: Seq<char>,
    pub path: Seq<char>,
    pub size: u64,
    pub created_at: Option<u64>,
    pub modified_at: Option<u64>,
    pub is_dir: bool,
}

impl View for FileInfo {
    type V = FileInfoView;

    open spec fn view(&self) -> FileInfoView {
        FileInfoView {
            id: self.id@,
            name: self.name@,
            path: self.path@,
            size: self.size,
            created_at: self.created_at,
            modified_at: self.modified_at,
            is_dir: self.is_dir,
        }
    }
}

/// The matched entries of a scan, in the order of the walk, and the sum of
/// their sizes.
#[derive(Debug)]
pub struct ScanResult {
    pub files: Vec<FileInfo>,
    pub total_size: u64,
}

/// The mathematical content of a `ScanResult`.
pub struct ScanResultView {
    pub files: Seq<FileInfoView>,
    pub total_size: u64,
}

/// The contents of a list of records.
pub open spec fn records_of(files: Seq<FileInfo>) -> Seq<FileInfoView> {
    files.map_values(|f: FileInfo| f@)
}

impl View for ScanResult {
    type V = ScanResultView;

    open spec fn view(&self) -> ScanResultView {
        ScanResultView { files: records_of(self.files@), total_size: self.total_size }
    }
}

/// A snapshot of a scan under way.
#[derive(Debug)]
pub struct ScanProgress {
    /// Entries visited so far, matched or not.
    pub scanned_count: u64,
    /// Entries matched so far.
    pub matched_count: u64,
    /// The path just visited.
    pub current_path: String,
}

/// The mathematical content of a `ScanProgress`.
pub struct ScanProgressView {
    pub scanned_count: u64,
    pub matched_count: u64,
    pub current_path: Seq<char>,
}

impl View for ScanProgress {
    type V = ScanProgressView;

    open spec fn view(&self) -> ScanProgressView {
        ScanProgressView {
            scanned_count: self.scanned_count,
            matched_count: self.matched_count,
            current_path: self.current_path@,
        }
    }
}

/// What a probe of the target directory found.
#[derive(Clone, Copy, Debug, PartialEq, Eq)]
pub enum RootProbe {
    /// Nothing exists at the path.
    Missing,
    /// Something exists there that is not a directory.
    NotADirectory,
    /// A directory exists there.
    Directory,
}

/// Why a scan could not run.
#[derive(Clone, Copy, Debug, PartialEq, Eq)]
pub enum ScanError {
    /// The target directory is missing or is not a directory.
    InvalidRoot,
}

/// The text of the error for a target that is not a directory.
pub open spec fn invalid_root_text() -> Seq<char> {
    "Invalid or non-existent target directory"@
}

impl ScanError {
    /// The error in words.
    pub fn message(&self) -> (s: String)
        ensures
            s@ == invalid_root_text(),
    {
        match self {
            ScanError::InvalidRoot => "Invalid or non-existent target directory".to_owned(),
        }
    }
}

/// The record made of a matched entry.
pub open spec fn record_of(e: WalkEntryView, id: Seq<char>) -> FileInfoView {
    FileInfoView {
        id,
        name: e.name,
        path: e.path,
        size: size_of(e),
        created_at: match e.meta {
            Some(m) => m.created_ms,
            None => None,
        },
        modified_at: match e.meta {
            Some(m) => m.modified_ms,
            None => None,
        },
        is_dir: match e.meta {
            Some(m) => m.is_dir,
            None => false,
        },
    }
}

/// The entries of a walk that the options admit, in the order of the walk.
pub open spec fn matched(o: ScanOptionsView, walk: Seq<WalkEntryView>) -> Seq<WalkEntryView>
    decreases walk.len(),
{
    if walk.len() == 0 {
        Seq::empty()
    } else if admits(o, walk.last()) {
        matched(o, walk.drop_last()).push(walk.last())
    } else {
        matched(o, walk.drop_last())
    }
}

/// The sum of the sizes of the records that are not directories.
pub open spec fn sum_sizes(files: Seq<FileInfoView>) -> int
    decreases files.len(),
{
    if files.len() == 0 {
        0
    } else if files.last().is_dir {
        sum_sizes(files.drop_last())
    } else {
        sum_sizes(files.drop_last()) + files.last().size
    }
}

/// No entry of the walk is listed in the exclusion set.
pub open spec fn avoids_excluded(o: ScanOptionsView, walk: Seq<WalkEntryView>) -> bool {
    forall|j: int| 0 <= j < walk.len() ==> !o.excludes(#[trigger] walk[j].path)
}

/// `files` are the records of the entries of `walk` that `o` admits, one
/// for one and in order, each under some identifier.
pub open spec fn records_match(
    o: ScanOptionsView,
    walk: Seq<WalkEntryView>,
    files: Seq<FileInfoView>,
) -> bool {
    let m = matched(o, walk);
    &&& files.len() == m.len()
    &&& forall|i: int| 0 <= i < files.len() ==> #[trigger] files[i] == record_of(m[i], files[i].id)
}

/// `r` is the result of a scan with options `o` over the entries `walk`.
pub open spec fn is_result_of(
    o: ScanOptionsView,
    walk: Seq<WalkEntryView>,
    r: ScanResultView,
) -> bool {
    &&& avoids_excluded(o, walk)
    &&& records_match(o, walk, r.files)
    &&& r.total_size == sum_sizes(r.files)
}

/// The snapshot that is due after a visit, if any.
pub open spec fn snapshot_due(scanned: u64, matched_before: nat, path: Seq<char>) -> Option<
    ScanProgressView,
> {
    if scanned % PROGRESS_INTERVAL == 0 {
        Some(
            ScanProgressView {
                scanned_count: scanned,
                matched_count: matched_before as u64,
                current_path: path,
            },
        )
    } else {
        None
    }
}

/// The view of an optional snapshot.
pub open spec fn opt_progress(p: Option<ScanProgress>) -> Option<ScanProgressView> {
    match p {
        Some(s) => Some(s@),
        None => None,
    }
}

/// Makes the record of an entry under the identifier `id`.
pub fn record_for(entry: &WalkEntry, id: String) -> (f: FileInfo)
    ensures
        f@ == record_of(entry@, id@),
{
    let (created_at, modified_at, is_dir) = match entry.meta {
        Some(m) => (m.created_ms, m.modified_ms, m.is_dir),
        None => (None, None, false),
    };
    FileInfo {
        id,
        name: entry.name.clone(),
        path: entry.path.clone(),
        size: entry.size(),
        created_at,
        modified_at,
        is_dir,
    }
}

/// A scan under way: the walker's counters and the aggregator's records.
pub struct Scanner {
    options: ScanOptions,
    files: Vec<FileInfo>,
    total_size: u64,
    scanned_count: u64,
    walk: Ghost<Seq<WalkEntryView>>,
}

impl Scanner {
    /// The options the scan runs with.
    pub closed spec fn options(&self) -> ScanOptionsView {
        self.options@
    }

    /// The entries visited so far, in order. Entries that the exclusion set
    /// lists are not visited and do not appear.
    pub closed spec fn visited(&self) -> Seq<WalkEntryView> {
        self.walk@
    }

    /// The records matched so far.
    pub closed spec fn records(&self) -> Seq<FileInfoView> {
        records_of(self.files@)
    }

    /// The running total of the matched sizes.
    pub closed spec fn total(&self) -> u64 {
        self.total_size
    }

    /// The number of entries visited so far.
    pub closed spec fn scanned(&self) -> u64 {
        self.scanned_count
    }

    /// The scan's state is consistent: the counter agrees with the entries
    /// visited, the records are those of the admitted entries, and the total
    /// is their sum.
    pub closed spec fn wf(&self) -> bool {
        &&& self.scanned_count == self.walk@.len()
        &&& is_result_of(
            self.options@,
            self.walk@,
            ScanResultView { files: records_of(self.files@), total_size: self.total_size },
        )
    }

    /// What `wf` says, over the public accessors.
    pub proof fn lemma_wf(&self)
        requires
            self.wf(),
        ensures
            self.scanned() == self.visited().len(),
            is_result_of(
                self.options(),
                self.visited(),
                ScanResultView { files: self.records(), total_size: self.total() },
            ),
    {
    }

    /// Starts a scan. The scan runs only when the probe of the target
    /// directory found a directory there.
    pub fn begin(options: ScanOptions, root: RootProbe) -> (r: Result<Scanner, ScanError>)
        ensures
            r is Ok <==> root == RootProbe::Directory,
            r is Err ==> r->Err_0 == ScanError::InvalidRoot,
            r is Ok ==> {
                &&& r->Ok_0.wf()
                &&& r->Ok_0.options() == options@
                &&& r->Ok_0.visited() == Seq::<WalkEntryView>::empty()
                &&& r->Ok_0.records() == Seq::<FileInfoView>::empty()
                &&& r->Ok_0.total() == 0
                &&& r->Ok_0.scanned() == 0
            },
    {
        match root {
            RootProbe::Directory => {
                let s = Scanner {
                    options,
                    files: Vec::new(),
                    total_size: 0,
                    scanned_count: 0,
                    walk: Ghost(Seq::empty()),
                };
                assert(records_of(s.files@) =~= Seq::<FileInfoView>::empty());
                Ok(s)
            },
            _ => Err(ScanError::InvalidRoot),
        }
    }

    /// The number of entries visited so far.
    pub fn scanned_count(&self) -> (n: u64)
        ensures
            n == self.scanned(),
    {
        self.scanned_count
    }

    /// The number of entries matched so far.
    pub fn matched_count(&self) -> (n: usize)
        ensures
            n == self.records().len(),
    {
        self.files.len()
    }

    /// The running total of the matched sizes.
    pub fn total_size(&self) -> (n: u64)
        ensures
            n == self.total(),
    {
        self.total_size
    }

    /// Whether the children of `entry` are to be listed before it is
    /// visited.
    pub fn wants_listing(&self, entry: &WalkEntry) -> (r: bool)
        ensures
            r == needs_listing(self.options(), entry@),
    {
        self.options.wants_listing(entry)
    }

    /// The counters can take a visit of `e`: the count of visited entries
    /// and, where `e` is matched, the total size stay within 64 bits. An
    /// entry that is not visited needs no room.
    pub open spec fn has_room_for(&self, e: WalkEntryView) -> bool {
        !self.options().excludes(e.path) ==> {
            &&& self.scanned() < u64::MAX
            &&& admits(self.options(), e) ==> self.total() + size_of(e) <= u64::MAX
        }
    }

    /// Whether the counters can take a visit of `entry`.
    pub fn fits(&self, entry: &WalkEntry) -> (r: bool)
        ensures
            r == self.has_room_for(entry@),
    {
        if self.options.is_excluded(entry.path.as_str()) {
            true
        } else if self.scanned_count == u64::MAX {
            false
        } else if entry.size() <= u64::MAX - self.total_size {
            true
        } else {
            !self.options.admits(entry)
        }
    }

    /// Visits one entry of the walk.
    ///
    /// An entry that the exclusion set lists is not visited: nothing
    /// changes. Any other entry is counted, a snapshot is returned when the
    /// count reaches a multiple of the interval, and the entry's record is
    /// appended under a fresh identifier when the options admit it. The
    /// snapshot reports the matches before this entry.
    pub fn visit(&mut self, entry: &WalkEntry) -> (progress: Option<ScanProgress>)
        requires
            old(self).wf(),
            old(self).has_room_for(entry@),
        ensures
            final(self).wf(),
            final(self).options() == old(self).options(),
            old(self).options().excludes(entry@.path) ==> {
                &&& *final(self) == *old(self)
                &&& progress is None
            },
            !old(self).options().excludes(entry@.path) ==> {
                &&& final(self).visited() == old(self).visited().push(entry@)
                &&& final(self).scanned() == old(self).scanned() + 1
                &&& opt_progress(progress) == snapshot_due(
                    final(self).scanned(),
                    old(self).records().len(),
                    entry@.path,
                )
            },
            !old(self).options().excludes(entry@.path) && admits(old(self).options(), entry@) ==> {
                &&& final(self).records().len() == old(self).records().len() + 1
                &&& final(self).records().drop_last() == old(self).records()
                &&& final(self).records().last() == record_of(
                    entry@,
                    final(self).records().last().id,
                )
                &&& final(self).records().last().id.len() == ID_LENGTH
                &&& final(self).total() == old(self).total() + size_of(entry@)
            },
            !old(self).options().excludes(entry@.path) && !admits(old(self).options(), entry@) ==> {
                &&& final(self).records() == old(self).records()
                &&& final(self).total() == old(self).total()
            },
    {
        if self.options.is_excluded(entry.path.as_str()) {
            return None;
        }
        let ghost before = self.walk@;
        let ghost after = before.push(entry@);
        let ghost old_files = records_of(self.files@);
        proof {
            assert(after.drop_last() =~= before);
            assert(after.last() == entry@);
        }
        let matched_before: usize = self.files.len();
        self.scanned_count = self.scanned_count + 1;
        let progress = if self.scanned_count % PROGRESS_INTERVAL == 0 {
            Some(
                ScanProgress {
                    scanned_count: self.scanned_count,
                    matched_count: matched_before as u64,
                    current_path: entry.path.clone(),
                },
            )
        } else {
            None
        };
        if self.options.admits(entry) {
            let record = record_for(entry, fresh_id());
            self.total_size = self.total_size + record.size;
            self.files.push(record);
            proof {
                let new_files = records_of(self.files@);
                assert(new_files.drop_last() =~= old_files);
                assert(new_files.last() == record_of(entry@, new_files.last().id));
                assert(matched(self.options@, after) == matched(self.options@, before).push(entry@));
                assert forall|i: int| 0 <= i < new_files.len() implies #[trigger] new_files[i]
                    == record_of(matched(self.options@, after)[i], new_files[i].id) by {
                    if i < old_files.len() {
                        assert(new_files[i] == old_files[i]);
                    }
                }
            }
        } else {
            proof {
                assert(records_of(self.files@) =~= old_files);
                assert(matched(self.options@, after) == matched(self.options@, before));
            }
        }
        self.walk = Ghost(after);
        progress
    }

    /// Ends the scan: hands out the result and the terminal snapshot, which
    /// carries the final counts and the completion note in place of a path.
    pub fn finish(self) -> (out: (ScanResult, ScanProgress))
        requires
            self.wf(),
        ensures
            is_result_of(self.options(), self.visited(), out.0@),
            out.0@.files == self.records(),
            out.0@.total_size == self.total(),
            out.1@ == (ScanProgressView {
                scanned_count: self.scanned(),
                matched_count: self.records().len() as u64,
                current_path: completion_note(),
            }),
    {
        let last = ScanProgress {
            scanned_count: self.scanned_count,
            matched_count: self.files.len() as u64,
            current_path: "文件收集完毕，正在渲染...".to_owned(),
        };
        (ScanResult { files: self.files, total_size: self.total_size }, last)
    }
}

} // verus!
