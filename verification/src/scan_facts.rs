//! What holds of every scan result, proved from the definition of a result.

use vstd::prelude::*;
use crate::entry::{class_of, is_artifact_name, EntryClass, WalkEntryView};
use crate::filter::{admits, admits_directory};
use crate::options::ScanOptionsView;
use crate::scan::{
    is_result_of, matched, record_of, records_match, sum_sizes, FileInfoView, ScanResultView,
};

verus! {

/// No two entries of the walk have the same path.
pub open spec fn paths_distinct(walk: Seq<WalkEntryView>) -> bool {
    forall|j: int, k: int|
        0 <= j < walk.len() && 0 <= k < walk.len() && j != k ==> (#[trigger] walk[j]).path != (
        #[trigger] walk[k]).path
}

/// The result holds a record made of the entry `e`.
pub open spec fn holds_record_of(r: ScanResultView, e: WalkEntryView) -> bool {
    exists|i: int| 0 <= i < r.files.len() && #[trigger] r.files[i] == record_of(e, r.files[i].id)
}

/// The sum of the sizes of all records, directories included.
pub open spec fn sum_all_sizes(files: Seq<FileInfoView>) -> int
    decreases files.len(),
{
    if files.len() == 0 {
        0
    } else {
        sum_all_sizes(files.drop_last()) + files.last().size
    }
}

/// The position in the walk of the `i`-th admitted entry; -1 where there
/// is no such entry.
pub open spec fn origin(o: ScanOptionsView, walk: Seq<WalkEntryView>, i: int) -> int
    decreases walk.len(),
{
    if walk.len() == 0 {
        -1
    } else if admits(o, walk.last()) && i == matched(o, walk.drop_last()).len() {
        walk.len() - 1
    } else {
        origin(o, walk.drop_last(), i)
    }
}

/// The result holds a record made of the entry at position `j` of the
/// walk.
pub open spec fn holds_record_at(
    o: ScanOptionsView,
    walk: Seq<WalkEntryView>,
    r: ScanResultView,
    j: int,
) -> bool {
    exists|i: int| 0 <= i < r.files.len() && #[trigger] origin(o, walk, i) == j
}

/// The admitted entries are never more than the entries of the walk.
pub proof fn lemma_matched_is_no_longer(o: ScanOptionsView, walk: Seq<WalkEntryView>)
    ensures
        matched(o, walk).len() <= walk.len(),
    decreases walk.len(),
{
    if walk.len() > 0 {
        lemma_matched_is_no_longer(o, walk.drop_last());
    }
}

/// The `i`-th admitted entry is the entry at its origin, and the options
/// admit it.
pub proof fn lemma_origin(o: ScanOptionsView, walk: Seq<WalkEntryView>, i: int)
    requires
        0 <= i < matched(o, walk).len(),
    ensures
        0 <= origin(o, walk, i) < walk.len(),
        walk[origin(o, walk, i)] == matched(o, walk)[i],
        admits(o, walk[origin(o, walk, i)]),
    decreases walk.len(),
{
    let rest = walk.drop_last();
    if !(admits(o, walk.last()) && i == matched(o, rest).len()) {
        lemma_origin(o, rest, i);
        assert(walk[origin(o, rest, i)] == rest[origin(o, rest, i)]);
    }
}

/// The admitted entries keep the order of the walk: a later one stems
/// from a later position.
pub proof fn lemma_origin_increases(o: ScanOptionsView, walk: Seq<WalkEntryView>, i: int, k: int)
    requires
        0 <= i < k < matched(o, walk).len(),
    ensures
        origin(o, walk, i) < origin(o, walk, k),
    decreases walk.len(),
{
    let rest = walk.drop_last();
    if admits(o, walk.last()) && k == matched(o, rest).len() {
        lemma_origin(o, rest, i);
    } else {
        lemma_origin_increases(o, rest, i, k);
    }
}

/// Every entry of a walk that the options admit is the origin of an
/// admitted entry.
pub proof fn lemma_admitted_has_origin(o: ScanOptionsView, walk: Seq<WalkEntryView>, j: int)
    requires
        0 <= j < walk.len(),
        admits(o, walk[j]),
    ensures
        exists|i: int| 0 <= i < matched(o, walk).len() && #[trigger] origin(o, walk, i) == j,
    decreases walk.len(),
{
    let rest = walk.drop_last();
    if j == walk.len() - 1 {
        let i = matched(o, rest).len() as int;
        assert(origin(o, walk, i) == j);
    } else {
        lemma_admitted_has_origin(o, rest, j);
        let i = choose|i: int| 0 <= i < matched(o, rest).len() && #[trigger] origin(o, rest, i) == j;
        lemma_matched_is_no_longer(o, rest);
        assert(origin(o, walk, i) == j);
    }
}

/// Every admitted entry of a walk is an entry of that walk.
pub proof fn lemma_matched_stems_from_walk(o: ScanOptionsView, walk: Seq<WalkEntryView>, i: int)
    requires
        0 <= i < matched(o, walk).len(),
    ensures
        exists|j: int| 0 <= j < walk.len() && walk[j] == matched(o, walk)[i] && admits(o, walk[j]),
{
    lemma_origin(o, walk, i);
}

/// Every entry of a walk that the options admit is among the admitted
/// entries.
pub proof fn lemma_admitted_is_matched(o: ScanOptionsView, walk: Seq<WalkEntryView>, j: int)
    requires
        0 <= j < walk.len(),
        admits(o, walk[j]),
    ensures
        exists|i: int| 0 <= i < matched(o, walk).len() && matched(o, walk)[i] == walk[j],
{
    lemma_admitted_has_origin(o, walk, j);
    let i = choose|i: int| 0 <= i < matched(o, walk).len() && #[trigger] origin(o, walk, i) == j;
    lemma_origin(o, walk, i);
}

/// The records of a scan result stand in the order of the walk: each is
/// made of the entry at its origin, and a later record stems from a later
/// position.
pub proof fn records_keep_walk_order(
    o: ScanOptionsView,
    walk: Seq<WalkEntryView>,
    r: ScanResultView,
    i: int,
    k: int,
)
    requires
        is_result_of(o, walk, r),
        0 <= i < k < r.files.len(),
    ensures
        0 <= origin(o, walk, i) < origin(o, walk, k) < walk.len(),
        r.files[i] == record_of(walk[origin(o, walk, i)], r.files[i].id),
        r.files[k] == record_of(walk[origin(o, walk, k)], r.files[k].id),
{
    lemma_origin(o, walk, i);
    lemma_origin(o, walk, k);
    lemma_origin_increases(o, walk, i, k);
}

/// A directory of the walk has a record in the result if and only if empty
/// directories are asked for and the directory holds nothing but system
/// artifacts. It has at most one record, which is a directory record of
/// size zero.
pub proof fn directory_recorded_iff_empty(
    o: ScanOptionsView,
    walk: Seq<WalkEntryView>,
    r: ScanResultView,
    j: int,
)
    requires
        is_result_of(o, walk, r),
        0 <= j < walk.len(),
        class_of(walk[j]) == EntryClass::Directory,
    ensures
        holds_record_at(o, walk, r, j) <==> admits_directory(o, walk[j].children),
        forall|i: int, k: int|
            0 <= i < r.files.len() && 0 <= k < r.files.len() && origin(o, walk, i) == j && origin(
                o,
                walk,
                k,
            ) == j ==> i == k,
        forall|i: int|
            0 <= i < r.files.len() && origin(o, walk, i) == j ==> {
                &&& (#[trigger] r.files[i]).is_dir
                &&& r.files[i].size == 0
                &&& r.files[i].path == walk[j].path
            },
{
    if admits_directory(o, walk[j].children) {
        lemma_admitted_has_origin(o, walk, j);
    }
    if holds_record_at(o, walk, r, j) {
        let i = choose|i: int| 0 <= i < r.files.len() && #[trigger] origin(o, walk, i) == j;
        lemma_origin(o, walk, i);
    }
    assert forall|i: int, k: int|
        0 <= i < r.files.len() && 0 <= k < r.files.len() && origin(o, walk, i) == j && origin(
            o,
            walk,
            k,
        ) == j implies i == k by {
        if i < k {
            lemma_origin_increases(o, walk, i, k);
        }
        if k < i {
            lemma_origin_increases(o, walk, k, i);
        }
    }
    assert forall|i: int| 0 <= i < r.files.len() && origin(o, walk, i) == j implies {
        &&& (#[trigger] r.files[i]).is_dir
        &&& r.files[i].size == 0
        &&& r.files[i].path == walk[j].path
    } by {
        lemma_origin(o, walk, i);
    }
}

/// The total size of a scan result is the sum of the sizes of its records
/// that are not directories.
pub proof fn total_is_sum_of_file_sizes(
    o: ScanOptionsView,
    walk: Seq<WalkEntryView>,
    r: ScanResultView,
)
    requires
        is_result_of(o, walk, r),
    ensures
        r.total_size == sum_sizes(r.files),
{
}

/// A directory record has size zero, so the total of a scan result is also
/// the sum over all of its records.
pub proof fn directories_weigh_nothing(
    o: ScanOptionsView,
    walk: Seq<WalkEntryView>,
    files: Seq<FileInfoView>,
)
    requires
        records_match(o, walk, files),
    ensures
        forall|i: int| 0 <= i < files.len() && files[i].is_dir ==> files[i].size == 0,
        sum_sizes(files) == sum_all_sizes(files),
{
    assert forall|i: int| 0 <= i < files.len() && files[i].is_dir implies files[i].size == 0 by {
        assert(files[i] == record_of(matched(o, walk)[i], files[i].id));
    }
    lemma_sums_agree(files);
}

/// Where every directory record has size zero, the sum over the files is
/// the sum over all records.
pub proof fn lemma_sums_agree(files: Seq<FileInfoView>)
    requires
        forall|i: int| 0 <= i < files.len() && files[i].is_dir ==> files[i].size == 0,
    ensures
        sum_sizes(files) == sum_all_sizes(files),
    decreases files.len(),
{
    if files.len() > 0 {
        let rest = files.drop_last();
        assert forall|i: int| 0 <= i < rest.len() && rest[i].is_dir implies rest[i].size == 0 by {
            assert(rest[i] == files[i]);
        }
        lemma_sums_agree(rest);
        assert(files.last() == files[files.len() - 1]);
    }
}

/// Every record of a scan result is made of an entry of the walk that was
/// readable, is neither a symbolic link nor a system artifact, is not listed
/// in the exclusion set, and passes the options' rules.
pub proof fn record_stems_from_admitted_entry(
    o: ScanOptionsView,
    walk: Seq<WalkEntryView>,
    r: ScanResultView,
    i: int,
)
    requires
        is_result_of(o, walk, r),
        0 <= i < r.files.len(),
    ensures
        exists|j: int|
            {
                &&& 0 <= j < walk.len()
                &&& r.files[i] == record_of(#[trigger] walk[j], r.files[i].id)
                &&& admits(o, walk[j])
                &&& class_of(walk[j]) == EntryClass::File || class_of(walk[j])
                    == EntryClass::Directory
            },
        !is_artifact_name(r.files[i].name),
        !o.excludes(r.files[i].path),
{
    lemma_matched_stems_from_walk(o, walk, i);
    let j = choose|j: int|
        0 <= j < walk.len() && walk[j] == matched(o, walk)[i] && admits(o, walk[j]);
    assert(r.files[i] == record_of(walk[j], r.files[i].id));
    assert(!o.excludes(walk[j].path));
}

/// Whatever holds of the path of every entry that the walk visited holds
/// of the path of every record. A walk that stays below the target
/// directory and out of the excluded subtrees thus yields only records
/// that do.
pub proof fn records_inherit_from_walk(
    o: ScanOptionsView,
    walk: Seq<WalkEntryView>,
    r: ScanResultView,
    holds: spec_fn(Seq<char>) -> bool,
)
    requires
        is_result_of(o, walk, r),
        forall|j: int| 0 <= j < walk.len() ==> holds(#[trigger] walk[j].path),
    ensures
        forall|i: int| 0 <= i < r.files.len() ==> holds(#[trigger] r.files[i].path),
{
    assert forall|i: int| 0 <= i < r.files.len() implies holds(#[trigger] r.files[i].path) by {
        lemma_matched_stems_from_walk(o, walk, i);
        let j = choose|j: int|
            0 <= j < walk.len() && walk[j] == matched(o, walk)[i] && admits(o, walk[j]);
        assert(r.files[i] == record_of(walk[j], r.files[i].id));
        assert(holds(walk[j].path));
    }
}

/// In a walk that visits no path twice, a directory has a record in the
/// result if and only if empty directories are asked for and the directory
/// holds nothing but system artifacts.
pub proof fn directory_present_iff_empty(
    o: ScanOptionsView,
    walk: Seq<WalkEntryView>,
    r: ScanResultView,
    j: int,
)
    requires
        is_result_of(o, walk, r),
        paths_distinct(walk),
        0 <= j < walk.len(),
        class_of(walk[j]) == EntryClass::Directory,
    ensures
        holds_record_of(r, walk[j]) <==> admits_directory(o, walk[j].children),
{
    if admits_directory(o, walk[j].children) {
        lemma_admitted_is_matched(o, walk, j);
        let i = choose|i: int| 0 <= i < matched(o, walk).len() && matched(o, walk)[i] == walk[j];
        assert(r.files[i] == record_of(walk[j], r.files[i].id));
    }
    if holds_record_of(r, walk[j]) {
        let i = choose|i: int|
            0 <= i < r.files.len() && #[trigger] r.files[i] == record_of(walk[j], r.files[i].id);
        lemma_matched_stems_from_walk(o, walk, i);
        let k = choose|k: int|
            0 <= k < walk.len() && walk[k] == matched(o, walk)[i] && admits(o, walk[k]);
        assert(r.files[i] == record_of(walk[k], r.files[i].id));
        assert(walk[k].path == walk[j].path);
        assert(k == j);
    }
}

/// A scan that visited nothing has no records and a total of zero.
pub proof fn empty_walk_gives_empty_result(o: ScanOptionsView, r: ScanResultView)
    requires
        is_result_of(o, Seq::<WalkEntryView>::empty(), r),
    ensures
        r.files.len() == 0,
        r.total_size == 0,
{
}

} // verus!
