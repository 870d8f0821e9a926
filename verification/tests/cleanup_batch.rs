use sweep_engine::paths::count_upward_steps;
use sweep_engine::{
    CleanProgress, Cleanup, CleanupAction, CleanupError, CleanupEvent, DeletionFailure,
    PruneAction, PruneEvent, Pruner,
};

fn batch(paths: &[&str], root: &str) -> Cleanup {
    Cleanup::new(paths.iter().map(|p| p.to_string()).collect(), root.to_string())
}

fn expect_probe(action: CleanupAction) -> CleanProgress {
    match action {
        CleanupAction::Probe(p) => p,
        other => panic!("expected a probe, got {:?}", other),
    }
}

fn expect_trash(action: CleanupAction) -> String {
    match action {
        CleanupAction::Trash(p) => p,
        other => panic!("expected a trash request, got {:?}", other),
    }
}

fn expect_prune(action: CleanupAction) -> Pruner {
    match action {
        CleanupAction::Prune(p) => p,
        other => panic!("expected a sweep, got {:?}", other),
    }
}

fn inspect(dir: &str) -> PruneAction {
    PruneAction::Inspect(dir.to_string())
}

fn remove(dir: &str) -> PruneAction {
    PruneAction::Remove(dir.to_string())
}

fn listed(names: &[&str]) -> PruneEvent {
    PruneEvent::Listed(Some(names.iter().map(|n| n.to_string()).collect()))
}

#[test]
fn batch_with_a_failure_in_the_middle_runs_to_the_end() {
    let mut job = batch(&["/root/x/one", "/root/two", "/root/y/three"], "/root");
    assert_eq!(job.total(), 3);

    let p = expect_probe(job.advance(CleanupEvent::Ready));
    assert_eq!((p.total, p.current, p.current_path.as_str()), (3, 1, "/root/x/one"));
    assert_eq!(expect_trash(job.advance(CleanupEvent::Probed(true))), "/root/x/one");
    let sweep = expect_prune(job.advance(CleanupEvent::Trashed(None)));
    assert_eq!(sweep.action(), inspect("/root/x"));

    let p = expect_probe(job.advance(CleanupEvent::Ready));
    assert_eq!((p.total, p.current, p.current_path.as_str()), (3, 2, "/root/two"));
    assert_eq!(expect_trash(job.advance(CleanupEvent::Probed(true))), "/root/two");
    let p = expect_probe(job.advance(CleanupEvent::Trashed(Some("permission denied".to_string()))));
    assert_eq!((p.total, p.current, p.current_path.as_str()), (3, 3, "/root/y/three"));
    assert_eq!(job.failure_count(), 1);

    assert_eq!(expect_trash(job.advance(CleanupEvent::Probed(true))), "/root/y/three");
    let sweep = expect_prune(job.advance(CleanupEvent::Trashed(None)));
    assert_eq!(sweep.action(), inspect("/root/y"));

    assert!(matches!(job.advance(CleanupEvent::Ready), CleanupAction::Finished));
    let err = job.finish().unwrap_err();
    let CleanupError::PartialDeletionFailure(failures) = &err;
    assert_eq!(failures.len(), 1);
    assert_eq!(failures[0].path, "/root/two");
    assert_eq!(failures[0].message, "permission denied");
    let text = err.summary();
    assert!(text.contains("/root/two"));
    assert!(!text.contains("/root/x/one"));
    assert!(!text.contains("/root/y/three"));
}

#[test]
fn batch_without_failures_succeeds() {
    let mut job = batch(&["/root/a", "/root/b"], "/root");
    expect_probe(job.advance(CleanupEvent::Ready));
    expect_trash(job.advance(CleanupEvent::Probed(true)));
    expect_prune(job.advance(CleanupEvent::Trashed(None)));
    expect_probe(job.advance(CleanupEvent::Ready));
    expect_trash(job.advance(CleanupEvent::Probed(true)));
    expect_prune(job.advance(CleanupEvent::Trashed(None)));
    assert!(matches!(job.advance(CleanupEvent::Ready), CleanupAction::Finished));
    assert_eq!(job.failure_count(), 0);
    assert!(job.finish().is_ok());
}

#[test]
fn empty_batch_finishes_at_once() {
    let mut job = batch(&[], "/root");
    assert_eq!(job.total(), 0);
    assert!(matches!(job.advance(CleanupEvent::Ready), CleanupAction::Finished));
    assert!(matches!(job.advance(CleanupEvent::Ready), CleanupAction::Finished));
    assert!(job.finish().is_ok());
}

#[test]
fn missing_path_is_skipped_without_a_failure() {
    let mut job = batch(&["/root/gone", "/root/here"], "/root");
    let p = expect_probe(job.advance(CleanupEvent::Ready));
    assert_eq!(p.current, 1);
    let p = expect_probe(job.advance(CleanupEvent::Probed(false)));
    assert_eq!((p.total, p.current, p.current_path.as_str()), (2, 2, "/root/here"));
    assert!(matches!(job.advance(CleanupEvent::Probed(false)), CleanupAction::Finished));
    assert_eq!(job.failure_count(), 0);
    assert!(job.finish().is_ok());
}

#[test]
fn every_path_is_announced_once_and_in_order() {
    let paths = ["/r/1", "/r/2", "/r/3", "/r/4"];
    let mut job = batch(&paths, "/r");
    let mut seen: Vec<(u64, u64, String)> = Vec::new();
    let mut action = job.advance(CleanupEvent::Ready);
    loop {
        match action {
            CleanupAction::Probe(p) => {
                let exists = p.current % 2 == 1;
                seen.push((p.total, p.current, p.current_path));
                action = job.advance(CleanupEvent::Probed(exists));
            }
            CleanupAction::Trash(_) => {
                action = job.advance(CleanupEvent::Trashed(Some("busy".to_string())));
            }
            CleanupAction::Prune(_) => {
                action = job.advance(CleanupEvent::Ready);
            }
            CleanupAction::Finished => break,
        }
    }
    let expected: Vec<(u64, u64, String)> =
        (1..=4u64).map(|i| (4, i, format!("/r/{}", i))).collect();
    assert_eq!(seen, expected);
    let CleanupError::PartialDeletionFailure(failures) = job.finish().unwrap_err();
    let failed: Vec<&str> = failures.iter().map(|f| f.path.as_str()).collect();
    assert_eq!(failed, vec!["/r/1", "/r/3"]);
}

#[test]
fn all_failures_are_kept_in_order() {
    let mut job = batch(&["/r/a", "/r/b"], "/r");
    expect_probe(job.advance(CleanupEvent::Ready));
    expect_trash(job.advance(CleanupEvent::Probed(true)));
    expect_probe(job.advance(CleanupEvent::Trashed(Some("first".to_string()))));
    expect_trash(job.advance(CleanupEvent::Probed(true)));
    assert!(matches!(
        job.advance(CleanupEvent::Trashed(Some("second".to_string()))),
        CleanupAction::Finished
    ));
    let err = job.finish().unwrap_err();
    assert_eq!(
        err.summary(),
        "部分文件未能删除:\nFailed to delete /r/a: first\nFailed to delete /r/b: second"
    );
}

#[test]
fn summary_of_a_single_failure() {
    let err = CleanupError::PartialDeletionFailure(vec![DeletionFailure {
        path: "/r/locked.bin".to_string(),
        message: "Operation not permitted".to_string(),
    }]);
    assert_eq!(
        err.summary(),
        "部分文件未能删除:\nFailed to delete /r/locked.bin: Operation not permitted"
    );
}

#[test]
fn failure_line_format() {
    let f = DeletionFailure { path: "/r/x".to_string(), message: "no".to_string() };
    assert_eq!(f.line(), "Failed to delete /r/x: no");
}

#[test]
fn unexpected_event_asks_again() {
    let mut job = batch(&["/r/a"], "/r");
    let p = expect_probe(job.advance(CleanupEvent::Ready));
    assert_eq!(p.current, 1);
    let p = expect_probe(job.advance(CleanupEvent::Trashed(None)));
    assert_eq!((p.current, p.current_path.as_str()), (1, "/r/a"));
    assert_eq!(expect_trash(job.advance(CleanupEvent::Probed(true))), "/r/a");
    assert_eq!(expect_trash(job.advance(CleanupEvent::Ready)), "/r/a");
    assert_eq!(expect_trash(job.advance(CleanupEvent::Probed(false))), "/r/a");
    assert_eq!(job.failure_count(), 0);
    expect_prune(job.advance(CleanupEvent::Trashed(None)));
    assert!(matches!(job.advance(CleanupEvent::Probed(true)), CleanupAction::Finished));
}

#[test]
fn deleting_the_only_file_prunes_up_to_the_root() {
    let mut sweep = Pruner::start("root/a/b/file.txt", "root");
    assert_eq!(sweep.action(), inspect("root/a/b"));
    assert_eq!(sweep.advance(&listed(&[])), remove("root/a/b"));
    assert_eq!(sweep.advance(&PruneEvent::Removed(true)), inspect("root/a"));
    assert_eq!(sweep.advance(&listed(&[])), remove("root/a"));
    assert_eq!(sweep.advance(&PruneEvent::Removed(true)), PruneAction::Stop);
    assert_eq!(sweep.action(), PruneAction::Stop);
}

#[test]
fn sweep_stops_at_a_directory_with_content() {
    let mut sweep = Pruner::start("/root/a/b/file.txt", "/root");
    assert_eq!(sweep.advance(&listed(&[".DS_Store"])), remove("/root/a/b"));
    assert_eq!(sweep.advance(&PruneEvent::Removed(true)), inspect("/root/a"));
    assert_eq!(sweep.advance(&listed(&["Thumbs.db", "other.txt"])), PruneAction::Stop);
    assert_eq!(sweep.advance(&listed(&[])), PruneAction::Stop);
    assert_eq!(sweep.advance(&PruneEvent::Removed(true)), PruneAction::Stop);
}

#[test]
fn sweep_ignores_artifacts_in_any_case() {
    let mut sweep = Pruner::start("/root/a/file", "/root");
    assert_eq!(sweep.advance(&listed(&[".ds_store", "THUMBS.DB"])), remove("/root/a"));
}

#[test]
fn sweep_never_starts_at_the_root() {
    assert_eq!(Pruner::start("/root/file.txt", "/root").action(), PruneAction::Stop);
    assert_eq!(Pruner::start("/root/file.txt", "/root/").action(), PruneAction::Stop);
    assert_eq!(Pruner::start("/root", "/root").action(), PruneAction::Stop);
}

#[test]
fn sweep_never_starts_outside_the_root() {
    assert_eq!(Pruner::start("/elsewhere/a/file", "/root").action(), PruneAction::Stop);
    assert_eq!(Pruner::start("/rooted/a/file", "/root").action(), PruneAction::Stop);
    assert_eq!(Pruner::start("/file", "/root").action(), PruneAction::Stop);
    assert_eq!(Pruner::start("/", "/root").action(), PruneAction::Stop);
    assert_eq!(Pruner::start("", "/root").action(), PruneAction::Stop);
}

#[test]
fn sweep_never_follows_an_upward_step() {
    assert_eq!(Pruner::start("/t/a/../../u/f.txt", "/t").action(), PruneAction::Stop);
    assert_eq!(Pruner::start("/t/a/../b/f.txt", "/t").action(), PruneAction::Stop);
    assert_eq!(Pruner::start("/t/a/b/../f.txt", "/t").action(), PruneAction::Stop);
    assert_eq!(Pruner::start("/t/a/..", "/t").action(), PruneAction::Stop);
    assert_eq!(Pruner::start("/t/../t/a/f.txt", "/t").action(), PruneAction::Stop);
    assert_eq!(Pruner::start("../t/../u/f.txt", "../t").action(), PruneAction::Stop);
    assert_eq!(Pruner::start("../t/a/../../../u/f.txt", "../t").action(), PruneAction::Stop);
    assert_eq!(Pruner::start("/t/./../u/f.txt", "/t/.").action(), PruneAction::Stop);
    assert_eq!(Pruner::start("/t/../u/f.txt", "/t/.").action(), PruneAction::Stop);
    assert_eq!(Pruner::start("t\\a\\..\\..\\u\\f.txt", "t").action(), PruneAction::Stop);
    let mut sweep = Pruner::start("/t/a/../../u/f.txt", "/t");
    assert_eq!(sweep.advance(&listed(&[])), PruneAction::Stop);
    assert_eq!(sweep.advance(&PruneEvent::Removed(true)), PruneAction::Stop);
}

#[test]
fn dots_inside_a_name_are_no_upward_step() {
    assert_eq!(Pruner::start("/t/a..b/f.txt", "/t").action(), inspect("/t/a..b"));
    assert_eq!(Pruner::start("/t/..a/f.txt", "/t").action(), inspect("/t/..a"));
    assert_eq!(Pruner::start("/t/a../f.txt", "/t").action(), inspect("/t/a.."));
    assert_eq!(Pruner::start("/t/.../f.txt", "/t").action(), inspect("/t/..."));
    assert_eq!(Pruner::start("/t/.hidden/f.txt", "/t").action(), inspect("/t/.hidden"));
}

#[test]
fn root_written_with_an_upward_step_is_pruned_below() {
    let mut sweep = Pruner::start("../t/a/b/f.txt", "../t");
    assert_eq!(sweep.action(), inspect("../t/a/b"));
    assert_eq!(sweep.advance(&listed(&[])), remove("../t/a/b"));
    assert_eq!(sweep.advance(&PruneEvent::Removed(true)), inspect("../t/a"));
    assert_eq!(sweep.advance(&listed(&[])), remove("../t/a"));
    assert_eq!(sweep.advance(&PruneEvent::Removed(true)), PruneAction::Stop);
    assert_eq!(Pruner::start("/t/x/../b/f.txt", "/t/x/..").action(), inspect("/t/x/../b"));
}

#[test]
fn upward_steps_are_read_off_the_text() {
    assert_eq!(count_upward_steps(".."), 1);
    assert_eq!(count_upward_steps("../a"), 1);
    assert_eq!(count_upward_steps("a/.."), 1);
    assert_eq!(count_upward_steps("/a/../b"), 1);
    assert_eq!(count_upward_steps("/t/a/../../u/f.txt"), 2);
    assert_eq!(count_upward_steps("../../.."), 3);
    assert_eq!(count_upward_steps("a\\..\\b"), 1);
    assert_eq!(count_upward_steps("C:..\\b"), 1);
    assert_eq!(count_upward_steps(""), 0);
    assert_eq!(count_upward_steps("."), 0);
    assert_eq!(count_upward_steps("..."), 0);
    assert_eq!(count_upward_steps("...."), 0);
    assert_eq!(count_upward_steps("a..b"), 0);
    assert_eq!(count_upward_steps("/a/..b/c"), 0);
    assert_eq!(count_upward_steps("/a/b../c"), 0);
    assert_eq!(count_upward_steps("/a/./b"), 0);
    assert_eq!(count_upward_steps("/plain/path/file.txt"), 0);
}

#[test]
fn every_answered_action_shortens_the_sweep() {
    let mut sweep = Pruner::start("/r/a/b/c/d/file", "/r");
    let mut steps = 0;
    let mut action = sweep.action();
    loop {
        action = match action {
            PruneAction::Inspect(_) => sweep.advance(&listed(&[])),
            PruneAction::Remove(_) => sweep.advance(&PruneEvent::Removed(true)),
            PruneAction::Stop => break,
        };
        steps += 1;
        assert!(steps <= 8, "the sweep does not end");
    }
    assert_eq!(steps, 8);
}

#[test]
fn sweep_stops_when_the_listing_fails() {
    let mut sweep = Pruner::start("/root/a/file", "/root");
    assert_eq!(sweep.advance(&PruneEvent::Listed(None)), PruneAction::Stop);
}

#[test]
fn sweep_stops_when_the_removal_fails() {
    let mut sweep = Pruner::start("/root/a/b/file", "/root");
    assert_eq!(sweep.advance(&listed(&[])), remove("/root/a/b"));
    assert_eq!(sweep.advance(&PruneEvent::Removed(false)), PruneAction::Stop);
}

#[test]
fn sweep_keeps_its_action_on_an_unexpected_report() {
    let mut sweep = Pruner::start("/root/a/b/file", "/root");
    assert_eq!(sweep.advance(&PruneEvent::Removed(true)), inspect("/root/a/b"));
    assert_eq!(sweep.advance(&listed(&[])), remove("/root/a/b"));
    assert_eq!(sweep.advance(&listed(&["x"])), remove("/root/a/b"));
}

#[test]
fn third_deletion_of_a_batch_still_prunes() {
    let mut job = batch(&["/root/p/1", "/root/q/2", "/root/s/t/3"], "/root");
    expect_probe(job.advance(CleanupEvent::Ready));
    expect_trash(job.advance(CleanupEvent::Probed(true)));
    expect_prune(job.advance(CleanupEvent::Trashed(None)));
    expect_probe(job.advance(CleanupEvent::Ready));
    expect_trash(job.advance(CleanupEvent::Probed(true)));
    expect_probe(job.advance(CleanupEvent::Trashed(Some("boom".to_string()))));
    expect_trash(job.advance(CleanupEvent::Probed(true)));
    let mut sweep = expect_prune(job.advance(CleanupEvent::Trashed(None)));
    assert_eq!(sweep.action(), inspect("/root/s/t"));
    assert_eq!(sweep.advance(&listed(&[])), remove("/root/s/t"));
    assert_eq!(sweep.advance(&PruneEvent::Removed(true)), inspect("/root/s"));
    assert_eq!(sweep.advance(&listed(&[])), remove("/root/s"));
    assert_eq!(sweep.advance(&PruneEvent::Removed(true)), PruneAction::Stop);
}
