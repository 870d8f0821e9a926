//! What holds of every batch that a driver runs as the batch asks: every
//! path is announced once and in order, the batch reaches its end whatever
//! fails, and the failures gathered are exactly those that occurred.

use vstd::prelude::*;
use crate::cleanup::{
    fresh, step_keeps_batch_consistent, CleanProgressView, CleanupActionView, CleanupEventView,
    CleanupView, DeletionFailureView, Stage,
};

verus! {

/// What became of one path of a batch.
pub enum PathOutcome {
    /// It no longer existed.
    Missing,
    /// It was moved to the trash.
    Trashed,
    /// The move to the trash failed with this text.
    Failed(Seq<char>),
}

/// The reports a driver makes for an announced path with the given
/// outcome, applied in order. The second component is the last action the
/// batch asked for.
pub open spec fn handle(v: CleanupView, outcome: PathOutcome) -> (CleanupView, CleanupActionView) {
    match outcome {
        PathOutcome::Missing => v.step(CleanupEventView::Probed(false)),
        PathOutcome::Trashed => v.step(CleanupEventView::Probed(true)).0.step(
            CleanupEventView::Trashed(None),
        ).0.step(CleanupEventView::Ready),
        PathOutcome::Failed(message) => v.step(CleanupEventView::Probed(true)).0.step(
            CleanupEventView::Trashed(Some(message)),
        ),
    }
}

/// The batch after its driver has started it and handled one path for each
/// of `outcomes`, with the last action the batch asked for.
pub open spec fn run(
    paths: Seq<Seq<char>>,
    root: Seq<char>,
    outcomes: Seq<PathOutcome>,
) -> (CleanupView, CleanupActionView)
    decreases outcomes.len(),
{
    if outcomes.len() == 0 {
        fresh(paths, root).step(CleanupEventView::Ready)
    } else {
        handle(run(paths, root, outcomes.drop_last()).0, outcomes.last())
    }
}

/// The failures among the outcomes of the first paths of a batch, each
/// with its path, in order.
pub open spec fn failures_among(paths: Seq<Seq<char>>, outcomes: Seq<PathOutcome>) -> Seq<
    DeletionFailureView,
>
    decreases outcomes.len(),
{
    if outcomes.len() == 0 {
        Seq::empty()
    } else {
        let earlier = failures_among(paths, outcomes.drop_last());
        match outcomes.last() {
            PathOutcome::Failed(message) => earlier.push(
                DeletionFailureView { path: paths[outcomes.len() - 1], message },
            ),
            _ => earlier,
        }
    }
}

/// The action that is due when `done` paths of the batch were handled: the
/// announcement of the next path, or the end of the batch.
pub open spec fn due_after(paths: Seq<Seq<char>>, done: nat) -> CleanupActionView {
    if done < paths.len() {
        CleanupActionView::Probe(
            CleanProgressView {
                total: paths.len() as u64,
                current: (done + 1) as u64,
                current_path: paths[done as int],
            },
        )
    } else {
        CleanupActionView::Finished
    }
}

/// After a driver has handled the first paths of a batch, whatever their
/// outcomes, the batch stands at the next path: it has just announced it,
/// or has finished when none is left. The failures gathered are exactly the
/// failed paths so far, each with its cause, in the order of the batch.
pub proof fn batch_runs_to_completion(
    paths: Seq<Seq<char>>,
    root: Seq<char>,
    outcomes: Seq<PathOutcome>,
)
    requires
        outcomes.len() <= paths.len(),
    ensures
        run(paths, root, outcomes).0 == (CleanupView {
            paths,
            root,
            cursor: outcomes.len(),
            stage: if outcomes.len() < paths.len() {
                Stage::Probing
            } else {
                Stage::Idle
            },
            failures: failures_among(paths, outcomes),
        }),
        run(paths, root, outcomes).1 == due_after(paths, outcomes.len()),
        run(paths, root, outcomes).0.wf(),
    decreases outcomes.len(),
{
    if outcomes.len() == 0 {
        assert(fresh(paths, root).wf());
        step_keeps_batch_consistent(fresh(paths, root), CleanupEventView::Ready);
    } else {
        let before = run(paths, root, outcomes.drop_last()).0;
        batch_runs_to_completion(paths, root, outcomes.drop_last());
        match outcomes.last() {
            PathOutcome::Missing => {
                step_keeps_batch_consistent(before, CleanupEventView::Probed(false));
            },
            PathOutcome::Trashed => {
                let a = before.step(CleanupEventView::Probed(true)).0;
                step_keeps_batch_consistent(before, CleanupEventView::Probed(true));
                let b = a.step(CleanupEventView::Trashed(None)).0;
                step_keeps_batch_consistent(a, CleanupEventView::Trashed(None));
                step_keeps_batch_consistent(b, CleanupEventView::Ready);
            },
            PathOutcome::Failed(message) => {
                let a = before.step(CleanupEventView::Probed(true)).0;
                step_keeps_batch_consistent(before, CleanupEventView::Probed(true));
                step_keeps_batch_consistent(
                    a,
                    CleanupEventView::Trashed(Some(message)),
                );
            },
        }
    }
}

/// A batch whose every path was handled has no failures if and only if no
/// move to the trash failed.
pub proof fn batch_succeeds_iff_nothing_failed(
    paths: Seq<Seq<char>>,
    root: Seq<char>,
    outcomes: Seq<PathOutcome>,
)
    requires
        outcomes.len() == paths.len(),
    ensures
        run(paths, root, outcomes).0.failures.len() == 0 <==> forall|i: int|
            0 <= i < outcomes.len() ==> !(#[trigger] outcomes[i] is Failed),
{
    batch_runs_to_completion(paths, root, outcomes);
    lemma_failures_counted(paths, outcomes);
}

/// There are no failures among the outcomes exactly when none of them is a
/// failure.
pub proof fn lemma_failures_counted(paths: Seq<Seq<char>>, outcomes: Seq<PathOutcome>)
    ensures
        failures_among(paths, outcomes).len() == 0 <==> forall|i: int|
            0 <= i < outcomes.len() ==> !(#[trigger] outcomes[i] is Failed),
        failures_among(paths, outcomes).len() <= outcomes.len(),
    decreases outcomes.len(),
{
    if outcomes.len() > 0 {
        let earlier = outcomes.drop_last();
        lemma_failures_counted(paths, earlier);
        if outcomes.last() is Failed {
            assert(outcomes[outcomes.len() - 1] is Failed);
        } else if failures_among(paths, earlier).len() == 0 {
            assert forall|i: int| 0 <= i < outcomes.len() implies !(#[trigger] outcomes[i]
                is Failed) by {
                if i < earlier.len() {
                    assert(earlier[i] == outcomes[i]);
                }
            }
        } else {
            let i = choose|i: int| 0 <= i < earlier.len() && (#[trigger] earlier[i] is Failed);
            assert(outcomes[i] is Failed);
        }
    }
}

} // verus!
