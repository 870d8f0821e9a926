//! Batch deletion: the paths of a batch are handled one after the other,
//! failures are gathered without ending the batch, and each deletion that
//! succeeded starts an upward sweep for directories it left empty.
//!
//! The batch decides; a driver emits the progress events, probes and
//! trashes paths, runs the sweeps and reports back what happened.

use vstd::prelude::*;
use vstd::string::StringExecFns;
use crate::entry::texts;
use crate::prune::{climb, PruneActionView, Pruner};

verus! {

/// A progress event of a batch.
#[derive(Debug)]
pub struct CleanProgress {
    /// The number of paths in the batch.
    pub total: u64,
    /// The position of the current path, counted from 1.
    pub current: u64,
    /// The path being handled.
    pub current_path: String,
}

/// The mathematical content of a `CleanProgress`.
pub struct CleanProgressView {
    pub total: u64,
    pub current: u64,
    pub current_path: Seq<char>,
}

impl View for CleanProgress {
    type V = CleanProgressView;

    open spec fn view(&self) -> CleanProgressView {
        CleanProgressView {
            total: self.total,
            current: self.current,
            current_path: self.current_path@,
        }
    }
}

/// One path that could not be deleted, and why.
#[derive(Debug)]
pub struct DeletionFailure {
    pub path: String,
    pub message: String,
}

/// The mathematical content of a `DeletionFailure`.
pub struct DeletionFailureView {
    pub path: Seq<char>,
    pub message: Seq<char>,
}

impl View for DeletionFailure {
    type V = DeletionFailureView;

    open spec fn view(&self) -> DeletionFailureView {
        DeletionFailureView { path: self.path@, message: self.message@ }
    }
}

/// The contents of a list of failures.
pub open spec fn failures_of(list: Seq<DeletionFailure>) -> Seq<DeletionFailureView> {
    list.map_values(|f: DeletionFailure| f@)
}

/// Why a batch did not fully succeed.
#[derive(Debug)]
pub enum CleanupError {
    /// The batch ran to its end, and these paths could not be deleted. The
    /// list is never empty and keeps the order of the batch.
    PartialDeletionFailure(Vec<DeletionFailure>),
}

/// Where the batch stands with its current path.
#[derive(Clone, Copy, Debug, PartialEq, Eq)]
pub enum Stage {
    /// No path is being handled.
    Idle,
    /// The current path was announced; whether it exists is not yet known.
    Probing,
    /// The current path exists and is being moved to the trash.
    Trashing,
}

/// What the driver reports to the batch.
#[derive(Debug)]
pub enum CleanupEvent {
    /// The driver is ready for the next path.
    Ready,
    /// Whether the announced path exists.
    Probed(bool),
    /// How the move to the trash went: `None` when it succeeded, the
    /// error's text when it failed.
    Trashed(Option<String>),
}

/// The mathematical content of a `CleanupEvent`.
pub enum CleanupEventView {
    Ready,
    Probed(bool),
    Trashed(Option<Seq<char>>),
}

impl View for CleanupEvent {
    type V = CleanupEventView;

    open spec fn view(&self) -> CleanupEventView {
        match self {
            CleanupEvent::Ready => CleanupEventView::Ready,
            CleanupEvent::Probed(b) => CleanupEventView::Probed(*b),
            CleanupEvent::Trashed(e) => CleanupEventView::Trashed(crate::paths::opt_text(*e)),
        }
    }
}

/// What the driver is to do next.
#[derive(Debug)]
pub enum CleanupAction {
    /// Emit this progress event, then find out whether its path exists.
    Probe(CleanProgress),
    /// Move this path to the trash.
    Trash(String),
    /// The path is gone: run this sweep, then report `Ready`.
    Prune(Pruner),
    /// Every path of the batch was handled.
    Finished,
}

/// The mathematical content of a `CleanupAction`. A sweep is given by the
/// root that bounds it and its first action.
pub enum CleanupActionView {
    Probe(CleanProgressView),
    Trash(Seq<char>),
    Prune { root: Seq<char>, first: PruneActionView },
    Finished,
}

impl View for CleanupAction {
    type V = CleanupActionView;

    open spec fn view(&self) -> CleanupActionView {
        match self {
            CleanupAction::Probe(p) => CleanupActionView::Probe(p@),
            CleanupAction::Trash(p) => CleanupActionView::Trash(p@),
            CleanupAction::Prune(p) => CleanupActionView::Prune {
                root: p.root(),
                first: p.pending(),
            },
            CleanupAction::Finished => CleanupActionView::Finished,
        }
    }
}

/// The state of a batch as a mathematical value.
pub struct CleanupView {
    /// The paths of the batch, in order.
    pub paths: Seq<Seq<char>>,
    /// The scan root that bounds every sweep.
    pub root: Seq<char>,
    /// The index of the current path: every path before it was handled.
    pub cursor: nat,
    /// Where the batch stands with the current path.
    pub stage: Stage,
    /// The failures gathered so far.
    pub failures: Seq<DeletionFailureView>,
}

impl CleanupView {
    /// The announcement of the path at `at`, or the end of the batch when
    /// no path is left.
    pub open spec fn announce(self, at: nat) -> (CleanupView, CleanupActionView) {
        if at < self.paths.len() {
            (
                CleanupView { cursor: at, stage: Stage::Probing, ..self },
                CleanupActionView::Probe(
                    CleanProgressView {
                        total: self.paths.len() as u64,
                        current: (at + 1) as u64,
                        current_path: self.paths[at as int],
                    },
                ),
            )
        } else {
            (CleanupView { cursor: at, stage: Stage::Idle, ..self }, CleanupActionView::Finished)
        }
    }

    /// The state and the action that follow `event`.
    ///
    /// With no path in hand, any event announces the next path. An
    /// announced path that does not exist is skipped without a failure. One
    /// that exists is moved to the trash; a success starts a sweep from it,
    /// a failure is recorded and the batch goes on. An event that does not
    /// answer the pending action changes nothing and has the action asked
    /// again.
    pub open spec fn step(self, event: CleanupEventView) -> (CleanupView, CleanupActionView) {
        let path = self.paths[self.cursor as int];
        match (self.stage, event) {
            (Stage::Idle, _) => self.announce(self.cursor),
            (Stage::Probing, CleanupEventView::Probed(true)) => (
                CleanupView { stage: Stage::Trashing, ..self },
                CleanupActionView::Trash(path),
            ),
            (Stage::Probing, CleanupEventView::Probed(false)) => self.announce(self.cursor + 1),
            (Stage::Probing, _) => self.announce(self.cursor),
            (Stage::Trashing, CleanupEventView::Trashed(None)) => (
                CleanupView { cursor: self.cursor + 1, stage: Stage::Idle, ..self },
                CleanupActionView::Prune { root: self.root, first: climb(path, self.root) },
            ),
            (Stage::Trashing, CleanupEventView::Trashed(Some(message))) => (CleanupView {
                failures: self.failures.push(DeletionFailureView { path, message }),
                ..self
            }).announce(self.cursor + 1),
            (Stage::Trashing, _) => (self, CleanupActionView::Trash(path)),
        }
    }

    /// The state is consistent: the cursor is within the batch, a path is
    /// in hand only where one is left, and every failure belongs to a path
    /// that was handled.
    pub open spec fn wf(self) -> bool {
        &&& self.cursor <= self.paths.len()
        &&& self.stage != Stage::Idle ==> self.cursor < self.paths.len()
        &&& self.failures.len() <= self.cursor
        &&& forall|k: int|
            0 <= k < self.failures.len() ==> self.handled((#[trigger] self.failures[k]).path)
    }

    /// `path` is one of the paths before the cursor.
    pub open spec fn handled(self, path: Seq<char>) -> bool {
        exists|j: int| 0 <= j < self.cursor && #[trigger] self.paths[j] == path
    }
}

/// A batch that has not started.
pub open spec fn fresh(paths: Seq<Seq<char>>, root: Seq<char>) -> CleanupView {
    CleanupView { paths, root, cursor: 0, stage: Stage::Idle, failures: Seq::empty() }
}

/// A consistent batch stays consistent, whatever the driver reports: no
/// failure is ever recorded for a path that was not handled, and there are
/// never more failures than paths handled.
pub proof fn step_keeps_batch_consistent(v: CleanupView, event: CleanupEventView)
    requires
        v.wf(),
    ensures
        v.step(event).0.wf(),
        v.step(event).0.paths == v.paths,
        v.step(event).0.root == v.root,
        v.cursor <= v.step(event).0.cursor <= v.cursor + 1,
{
    let next = v.step(event).0;
    assert forall|k: int| 0 <= k < next.failures.len() implies next.handled(
        (#[trigger] next.failures[k]).path,
    ) by {
        if k < v.failures.len() {
            assert(next.failures[k] == v.failures[k]);
            assert(v.handled(v.failures[k].path));
            let j = choose|j: int| 0 <= j < v.cursor && #[trigger] v.paths[j] == v.failures[k].path;
            assert(next.paths[j] == next.failures[k].path);
        } else {
            assert(next.paths[v.cursor as int] == next.failures[k].path);
        }
    }
}

/// A batch under way.
#[derive(Debug)]
pub struct Cleanup {
    paths: Vec<String>,
    root: String,
    cursor: usize,
    stage: Stage,
    failures: Vec<DeletionFailure>,
}

impl View for Cleanup {
    type V = CleanupView;

    closed spec fn view(&self) -> CleanupView {
        CleanupView {
            paths: texts(self.paths@),
            root: self.root@,
            cursor: self.cursor as nat,
            stage: self.stage,
            failures: failures_of(self.failures@),
        }
    }
}

impl Cleanup {
    /// A batch over `paths`, which stem from a scan of `scan_root`.
    pub fn new(paths: Vec<String>, scan_root: String) -> (c: Cleanup)
        ensures
            c@.wf(),
            c@ == fresh(texts(paths@), scan_root@),
    {
        let c = Cleanup {
            paths,
            root: scan_root,
            cursor: 0,
            stage: Stage::Idle,
            failures: Vec::new(),
        };
        assert(failures_of(c.failures@) =~= Seq::empty());
        c
    }

    /// Announces the path at `at`, or the end of the batch.
    fn announce(&mut self, at: usize) -> (action: CleanupAction)
        requires
            at <= old(self).paths.len(),
        ensures
            (final(self)@, action@) == old(self)@.announce(at as nat),
            final(self).paths == old(self).paths,
            final(self).failures == old(self).failures,
            final(self).cursor == at,
    {
        self.cursor = at;
        if at < self.paths.len() {
            self.stage = Stage::Probing;
            CleanupAction::Probe(
                CleanProgress {
                    total: self.paths.len() as u64,
                    current: (at + 1) as u64,
                    current_path: self.paths[at].clone(),
                },
            )
        } else {
            self.stage = Stage::Idle;
            CleanupAction::Finished
        }
    }

    /// Takes the driver's report and returns what the driver is to do next.
    pub fn advance(&mut self, event: CleanupEvent) -> (action: CleanupAction)
        requires
            old(self)@.wf(),
        ensures
            final(self)@.wf(),
            (final(self)@, action@) == old(self)@.step(event@),
            action matches CleanupAction::Prune(p) ==> p.wf(),
    {
        let ghost before = self@;
        proof {
            assert(before.paths.len() == self.paths.len());
            step_keeps_batch_consistent(before, event@);
        }
        match (self.stage, event) {
            (Stage::Idle, _) => {
                let at: usize = self.cursor;
                self.announce(at)
            },
            (Stage::Probing, CleanupEvent::Probed(true)) => {
                self.stage = Stage::Trashing;
                CleanupAction::Trash(self.paths[self.cursor].clone())
            },
            (Stage::Probing, CleanupEvent::Probed(false)) => {
                let at: usize = self.cursor + 1;
                self.announce(at)
            },
            (Stage::Probing, _) => {
                let at: usize = self.cursor;
                self.announce(at)
            },
            (Stage::Trashing, CleanupEvent::Trashed(None)) => {
                let pruner = Pruner::start(self.paths[self.cursor].as_str(), self.root.as_str());
                self.cursor = self.cursor + 1;
                self.stage = Stage::Idle;
                CleanupAction::Prune(pruner)
            },
            (Stage::Trashing, CleanupEvent::Trashed(Some(message))) => {
                let failure = DeletionFailure { path: self.paths[self.cursor].clone(), message };
                self.failures.push(failure);
                proof {
                    assert(failures_of(self.failures@) =~= before.failures.push(failure@));
                }
                let at: usize = self.cursor + 1;
                self.announce(at)
            },
            (Stage::Trashing, _) => CleanupAction::Trash(self.paths[self.cursor].clone()),
        }
    }

    /// The number of paths in the batch.
    pub fn total(&self) -> (n: usize)
        ensures
            n == self@.paths.len(),
    {
        self.paths.len()
    }

    /// The number of failures gathered so far.
    pub fn failure_count(&self) -> (n: usize)
        ensures
            n == self@.failures.len(),
    {
        self.failures.len()
    }

    /// Ends the batch. It succeeded when no failure was gathered; otherwise
    /// the error holds every failure, in the order of the batch.
    pub fn finish(self) -> (r: Result<(), CleanupError>)
        ensures
            r is Ok <==> self@.failures.len() == 0,
            r matches Err(CleanupError::PartialDeletionFailure(list)) ==> failures_of(list@)
                == self@.failures,
    {
        if self.failures.len() == 0 {
            Ok(())
        } else {
            Err(CleanupError::PartialDeletionFailure(self.failures))
        }
    }
}

/// The line that reports one failure.
pub open spec fn failure_line(f: DeletionFailureView) -> Seq<char> {
    "Failed to delete "@ + f.path + ": "@ + f.message
}

/// The lines of the failures, one below the other.
pub open spec fn joined_lines(failures: Seq<DeletionFailureView>) -> Seq<char>
    decreases failures.len(),
{
    if failures.len() == 0 {
        Seq::empty()
    } else if failures.len() == 1 {
        failure_line(failures[0])
    } else {
        joined_lines(failures.drop_last()) + "\n"@ + failure_line(failures.last())
    }
}

/// The one message that reports every failure of a batch: a heading, then a
/// line for each failure.
pub open spec fn summary_text(failures: Seq<DeletionFailureView>) -> Seq<char> {
    "部分文件未能删除:\n"@ + joined_lines(failures)
}

impl DeletionFailure {
    /// The line that reports this failure.
    pub fn line(&self) -> (s: String)
        ensures
            s@ == failure_line(self@),
    {
        let mut s = "Failed to delete ".to_owned();
        s.append(self.path.as_str());
        s.append(": ");
        s.append(self.message.as_str());
        s
    }
}

impl CleanupError {
    /// The failures the error holds.
    pub open spec fn failures(&self) -> Seq<DeletionFailureView> {
        match self {
            CleanupError::PartialDeletionFailure(list) => failures_of(list@),
        }
    }

    /// The one message that reports every failure of the batch.
    pub fn summary(&self) -> (s: String)
        ensures
            s@ == summary_text(self.failures()),
    {
        match self {
            CleanupError::PartialDeletionFailure(list) => {
                let mut s = "部分文件未能删除:\n".to_owned();
                let ghost head = s@;
                let mut i: usize = 0;
                while i < list.len()
                    invariant
                        i <= list.len(),
                        s@ == head + joined_lines(failures_of(list@).take(i as int)),
                    decreases list.len() - i,
                {
                    let ghost done = failures_of(list@).take(i as int);
                    let ghost more = failures_of(list@).take(i + 1);
                    proof {
                        assert(more.drop_last() =~= done);
                        assert(more.last() == list@[i as int]@);
                    }
                    if i > 0 {
                        s.append("\n");
                    }
                    let line = list[i].line();
                    s.append(line.as_str());
                    proof {
                        if i == 0 {
                            assert(done =~= Seq::empty());
                            assert(more[0] == more.last());
                            assert(s@ =~= head + joined_lines(more));
                        } else {
                            assert(s@ =~= head + joined_lines(more));
                        }
                    }
                    i += 1;
                }
                proof {
                    assert(failures_of(list@).take(list.len() as int) =~= failures_of(list@));
                }
                s
            },
        }
    }
}

} // verus!
