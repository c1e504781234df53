use ufbt::log::progress::progress_id;
use ufbt::log::{Progress, ProgressState};

fn progress(state: ProgressState, current: u64, total: Option<u64>) -> Progress {
    Progress::new("progress-1", "Downloading", state, current, total, None)
}

#[test]
fn indeterminate_when_total_is_missing_or_zero() {
    assert!(progress(ProgressState::Running, 5, None).indeterminate());
    assert!(progress(ProgressState::Running, 5, Some(0)).indeterminate());
    assert!(!progress(ProgressState::Running, 5, Some(1)).indeterminate());
}

#[test]
fn is_done_only_for_finished_and_failed() {
    assert!(!progress(ProgressState::Started, 0, Some(10)).is_done());
    assert!(!progress(ProgressState::Running, 5, Some(10)).is_done());
    assert!(progress(ProgressState::Finished, 10, Some(10)).is_done());
    assert!(progress(ProgressState::Failed, 5, Some(10)).is_done());
}

#[test]
fn accessors_return_constructor_values() {
    let progress = Progress::new(
        "progress-7",
        "Unpacking",
        ProgressState::Running,
        3,
        Some(9),
        Some("entry.bin".to_owned()),
    );

    assert_eq!(progress.id(), "progress-7");
    assert_eq!(progress.title(), "Unpacking");
    assert_eq!(progress.state(), ProgressState::Running);
    assert_eq!(progress.current(), 3);
    assert_eq!(progress.total(), Some(9));
    assert_eq!(progress.message(), Some("entry.bin"));
}

#[test]
fn an_update_moves_the_task_to_running_and_keeps_what_it_is_not_given() {
    let started = progress(ProgressState::Started, 0, Some(100));
    let updated = started.updated(Some(40), None, Some("half")).expect("a running task");
    assert_eq!(updated.state(), ProgressState::Running);
    assert_eq!(updated.current(), 40);
    assert_eq!(updated.total(), Some(100));
    assert_eq!(updated.message(), Some("half"));
    assert_eq!(updated.id(), "progress-1");
    assert_eq!(updated.title(), "Downloading");

    let again = updated.updated(None, Some(200), None).expect("a running task");
    assert_eq!(again.current(), 40);
    assert_eq!(again.total(), Some(200));
    assert_eq!(again.message(), Some("half"));
}

#[test]
fn advancing_adds_to_the_current_count() {
    let running = progress(ProgressState::Running, 10, None);
    let advanced = running.advanced(5).expect("a running task");
    assert_eq!(advanced.current(), 15);
    assert_eq!(advanced.state(), ProgressState::Running);
}

#[test]
fn completing_counts_the_whole_total_or_keeps_the_current_count() {
    let known = progress(ProgressState::Running, 10, Some(50));
    let finished = known.completed(None).expect("a running task");
    assert_eq!(finished.state(), ProgressState::Finished);
    assert_eq!(finished.current(), 50);

    let unknown = progress(ProgressState::Running, 10, None);
    let finished = unknown.completed(Some("done")).expect("a running task");
    assert_eq!(finished.current(), 10);
    assert_eq!(finished.message(), Some("done"));
}

#[test]
fn aborting_leaves_the_counters_alone() {
    let running = progress(ProgressState::Running, 10, Some(50));
    let failed = running.aborted(Some("broken")).expect("a running task");
    assert_eq!(failed.state(), ProgressState::Failed);
    assert_eq!(failed.current(), 10);
    assert_eq!(failed.total(), Some(50));
    assert_eq!(failed.message(), Some("broken"));
}

#[test]
fn a_done_task_takes_no_more_updates() {
    for state in [ProgressState::Finished, ProgressState::Failed] {
        let done = progress(state, 10, Some(50));
        assert_eq!(done.updated(Some(20), None, None), None);
        assert_eq!(done.advanced(1), None);
        assert_eq!(done.completed(None), None);
        assert_eq!(done.aborted(None), None);
    }
}

#[test]
fn copy_with_replaces_only_what_it_is_given() {
    let original = Progress::new("id", "t", ProgressState::Running, 1, Some(2), Some("m".to_owned()));
    assert_eq!(original.copy_with(None, None, None, None), original);
    let copy = original.copy_with(Some(ProgressState::Failed), Some(7), Some(9), Some("n"));
    assert_eq!(
        copy,
        Progress::new("id", "t", ProgressState::Failed, 7, Some(9), Some("n".to_owned()))
    );
}

#[test]
fn task_identifiers_count_from_one() {
    assert_eq!(progress_id(1), "progress-1");
    assert_eq!(progress_id(42), "progress-42");
}
