//! Pruning of directories that a deletion left empty: an upward sweep from
//! the deleted path's parent that never reaches the scan root and never
//! follows a path that steps upward through `..` out of it.
//!
//! The pruner decides; a driver lists and removes directories and reports
//! back what happened.

use vstd::prelude::*;
use crate::entry::{is_effectively_empty, listing_is_empty, opt_texts};
use crate::paths::{
    count_upward_steps, lemma_upward_steps, parent, parent_of, same_path, starts_with,
    stays_below, steps_upward, strictly_inside, upward_steps,
};

verus! {

/// What the driver is to do next.
#[derive(Debug, PartialEq, Eq)]
pub enum PruneAction {
    /// List the immediate children of this directory and report their
    /// names.
    Inspect(String),
    /// Remove this directory with everything in it, and report whether that
    /// succeeded.
    Remove(String),
    /// Nothing is left to do.
    Stop,
}

/// The mathematical content of a `PruneAction`.
pub enum PruneActionView {
    Inspect(Seq<char>),
    Remove(Seq<char>),
    Stop,
}

impl View for PruneAction {
    type V = PruneActionView;

    open spec fn view(&self) -> PruneActionView {
        match self {
            PruneAction::Inspect(d) => PruneActionView::Inspect(d@),
            PruneAction::Remove(d) => PruneActionView::Remove(d@),
            PruneAction::Stop => PruneActionView::Stop,
        }
    }
}

/// What the driver reports back.
#[derive(Debug)]
pub enum PruneEvent {
    /// The names of the inspected directory's children, or `None` when the
    /// directory could not be listed.
    Listed(Option<Vec<String>>),
    /// Whether the directory was removed.
    Removed(bool),
}

/// The mathematical content of a `PruneEvent`.
pub enum PruneEventView {
    Listed(Option<Seq<Seq<char>>>),
    Removed(bool),
}

impl View for PruneEvent {
    type V = PruneEventView;

    open spec fn view(&self) -> PruneEventView {
        match self {
            PruneEvent::Listed(c) => PruneEventView::Listed(opt_texts(*c)),
            PruneEvent::Removed(ok) => PruneEventView::Removed(*ok),
        }
    }
}

/// The step upward from `from`, given its parent: the parent is inspected
/// next when it does not lead out of the root; otherwise the sweep is over.
/// A path that steps upward more often than the root, or less often, is not
/// followed at all.
pub open spec fn climb_with(
    from: Seq<char>,
    parent: Option<Seq<char>>,
    root: Seq<char>,
) -> PruneActionView {
    if upward_steps(from) != upward_steps(root) {
        PruneActionView::Stop
    } else {
        match parent {
            Some(p) => if stays_below(p, root) {
                PruneActionView::Inspect(p)
            } else {
                PruneActionView::Stop
            },
            None => PruneActionView::Stop,
        }
    }
}

/// The step upward from `from`.
pub open spec fn climb(from: Seq<char>, root: Seq<char>) -> PruneActionView {
    climb_with(from, parent_of(from), root)
}

/// How far a sweep is from its end: nothing once it has stopped;
/// otherwise one more than twice the length of the directory in hand, and
/// one more again while that directory is still to be inspected.
pub open spec fn sweep_measure(action: PruneActionView) -> nat {
    match action {
        PruneActionView::Inspect(d) => 2 * d.len() + 2,
        PruneActionView::Remove(d) => 2 * d.len() + 1,
        PruneActionView::Stop => 0,
    }
}

/// The event answers the pending action: a listing answers an inspection,
/// a removal's outcome answers a removal.
pub open spec fn answers(pending: PruneActionView, event: PruneEventView) -> bool {
    (pending is Inspect && event is Listed) || (pending is Remove && event is Removed)
}

/// The action that follows when `event` answers the action `pending`.
///
/// A directory that holds nothing but system artifacts is removed; after a
/// removal the sweep climbs on; a directory with other content, a failed
/// listing and a failed removal end it. An event that does not answer the
/// pending action changes nothing.
pub open spec fn next_action(
    pending: PruneActionView,
    event: PruneEventView,
    root: Seq<char>,
) -> PruneActionView {
    match (pending, event) {
        (PruneActionView::Inspect(d), PruneEventView::Listed(children)) => {
            if is_effectively_empty(children) {
                PruneActionView::Remove(d)
            } else {
                PruneActionView::Stop
            }
        },
        (PruneActionView::Remove(d), PruneEventView::Removed(ok)) => {
            if ok {
                climb(d, root)
            } else {
                PruneActionView::Stop
            }
        },
        _ => pending,
    }
}

/// The action stays inside the root: it names no directory that is the
/// root, lies outside it, or is reached by a step upward out of it.
pub open spec fn within_bounds(action: PruneActionView, root: Seq<char>) -> bool {
    match action {
        PruneActionView::Inspect(d) => stays_below(d, root),
        PruneActionView::Remove(d) => stays_below(d, root),
        PruneActionView::Stop => true,
    }
}

/// The boundary test, given what the two comparisons with the root and the
/// count of the path's steps upward found: a directory may be pruned when
/// it is not the root, lies below it, and steps upward as often as the
/// root.
pub fn may_prune(is_root: bool, below_root: bool, steps: usize, root_steps: usize) -> (r: bool)
    ensures
        r == (!is_root && below_root && steps == root_steps),
{
    !is_root && below_root && steps == root_steps
}

/// The step upward from `from`, given its parent.
pub fn climb_to(from: &str, parent: Option<String>, root: &str) -> (action: PruneAction)
    ensures
        action@ == climb_with(from@, crate::paths::opt_text(parent), root@),
{
    let root_steps = count_upward_steps(root);
    if count_upward_steps(from) != root_steps {
        return PruneAction::Stop;
    }
    match parent {
        Some(p) => {
            let is_root = same_path(p.as_str(), root);
            let below_root = starts_with(p.as_str(), root);
            let steps = count_upward_steps(p.as_str());
            if may_prune(is_root, below_root, steps, root_steps) {
                PruneAction::Inspect(p)
            } else {
                PruneAction::Stop
            }
        },
        None => PruneAction::Stop,
    }
}

/// An upward sweep under way.
#[derive(Debug)]
pub struct Pruner {
    root: String,
    pending: PruneAction,
}

impl Pruner {
    /// The root that bounds the sweep.
    pub closed spec fn root(&self) -> Seq<char> {
        self.root@
    }

    /// The action the driver is to perform now.
    pub closed spec fn pending(&self) -> PruneActionView {
        self.pending@
    }

    /// The sweep has not left the root.
    pub closed spec fn wf(&self) -> bool {
        within_bounds(self.pending@, self.root@)
    }

    /// Starts a sweep after `deleted` was removed from the tree below
    /// `root`. The first directory considered is the parent of `deleted`.
    pub fn start(deleted: &str, root: &str) -> (p: Pruner)
        ensures
            p.wf(),
            p.root() == root@,
            p.pending() == climb(deleted@, root@),
            sweep_measure(p.pending()) < 2 * deleted@.len() + 1,
    {
        let pending = climb_to(deleted, parent(deleted), root);
        Pruner { root: root.to_owned(), pending }
    }

    /// The action the driver is to perform now.
    pub fn action(&self) -> (a: PruneAction)
        requires
            self.wf(),
        ensures
            a@ == self.pending(),
            within_bounds(a@, self.root()),
    {
        match &self.pending {
            PruneAction::Inspect(d) => PruneAction::Inspect(d.clone()),
            PruneAction::Remove(d) => PruneAction::Remove(d.clone()),
            PruneAction::Stop => PruneAction::Stop,
        }
    }

    /// Takes the driver's report and returns the next action. A report
    /// that answers the pending action brings the sweep closer to its end,
    /// so a driver that answers each action reaches `Stop`.
    pub fn advance(&mut self, event: &PruneEvent) -> (a: PruneAction)
        requires
            old(self).wf(),
        ensures
            final(self).wf(),
            final(self).root() == old(self).root(),
            final(self).pending() == next_action(old(self).pending(), event@, old(self).root()),
            a@ == final(self).pending(),
            within_bounds(a@, final(self).root()),
            answers(old(self).pending(), event@) ==> sweep_measure(final(self).pending())
                < sweep_measure(old(self).pending()),
    {
        let mut current = PruneAction::Stop;
        std::mem::swap(&mut self.pending, &mut current);
        let next = match (current, event) {
            (PruneAction::Inspect(d), PruneEvent::Listed(children)) => {
                if listing_is_empty(children) {
                    PruneAction::Remove(d)
                } else {
                    PruneAction::Stop
                }
            },
            (PruneAction::Remove(d), PruneEvent::Removed(ok)) => {
                if *ok {
                    climb_to(d.as_str(), parent(d.as_str()), self.root.as_str())
                } else {
                    PruneAction::Stop
                }
            },
            (other, _) => other,
        };
        self.pending = next;
        self.action()
    }
}

/// Below a root that is written without `..`, a path that steps upward is
/// not followed: nothing is inspected or removed on its account.
pub proof fn upward_path_is_not_followed(from: Seq<char>, root: Seq<char>)
    requires
        steps_upward(from),
        !steps_upward(root),
    ensures
        climb(from, root) == PruneActionView::Stop,
{
    lemma_upward_steps(from);
    lemma_upward_steps(root);
}

/// The first step of a sweep names no directory that is the root, lies
/// outside it, or is reached by a step upward out of it.
pub proof fn first_step_stays_inside_root(deleted: Seq<char>, root: Seq<char>)
    ensures
        within_bounds(climb(deleted, root), root),
{
}

/// A sweep that is inside the root stays inside it, whatever the driver
/// reports: the root itself, directories outside it and directories reached
/// by a step upward out of it are never inspected and never removed. Below
/// a root written without `..`, no directory whose path holds `..` is.
pub proof fn sweep_stays_inside_root(
    pending: PruneActionView,
    event: PruneEventView,
    root: Seq<char>,
)
    requires
        within_bounds(pending, root),
    ensures
        within_bounds(next_action(pending, event, root), root),
        next_action(pending, event, root) matches PruneActionView::Remove(d) ==> {
            &&& strictly_inside(d, root)
            &&& upward_steps(d) == upward_steps(root)
            &&& !steps_upward(root) ==> !steps_upward(d)
        },
{
    if let PruneActionView::Remove(d) = next_action(pending, event, root) {
        lemma_upward_steps(d);
        lemma_upward_steps(root);
    }
}

/// A directory is removed only after it was inspected and found to hold
/// nothing but system artifacts.
pub proof fn removal_follows_empty_listing(
    pending: PruneActionView,
    event: PruneEventView,
    root: Seq<char>,
)
    requires
        !(pending is Remove),
        next_action(pending, event, root) is Remove,
    ensures
        pending is Inspect,
        event is Listed,
        is_effectively_empty(event->Listed_0),
        next_action(pending, event, root)->Remove_0 == pending->Inspect_0,
{
}

} // verus!
