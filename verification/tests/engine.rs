use photosync::job::{JobError, Mode, TransferJob};
use photosync::report::{FailureStage, OutcomeKind};
use photosync::runner::{Action, DirEntry, EntryKind, Event, TransferRunner};

fn job(recursive: bool, group: bool, fmt: &str, mode: Mode) -> TransferJob {
    TransferJob {
        source_root: String::from("/src"),
        destination_root: String::from("/dst"),
        recursive,
        group_by_creation_date: group,
        date_format: String::from(fmt),
        mode,
    }
}

fn file(name: &str) -> DirEntry {
    DirEntry { name: String::from(name), kind: EntryKind::File }
}

fn dir(name: &str) -> DirEntry {
    DirEntry { name: String::from(name), kind: EntryKind::Dir }
}

const JAN_1_2023: i64 = 1672531200;
const JAN_2_2023: i64 = 1672617600;
const MAR_3_2023: i64 = 1677801600;

fn assert_copy(a: &Action, source: &str, destination: &str) {
    match a {
        Action::CopyFile { source: s, destination: d } => {
            assert_eq!(s.as_str(), source);
            assert_eq!(d.as_str(), destination);
        },
        other => panic!("expected a copy, got {:?}", other),
    }
}

fn assert_rename(a: &Action, source: &str, destination: &str) {
    match a {
        Action::RenameFile { source: s, destination: d } => {
            assert_eq!(s.as_str(), source);
            assert_eq!(d.as_str(), destination);
        },
        other => panic!("expected a rename, got {:?}", other),
    }
}

#[test]
fn copy_grouped_by_creation_date() {
    let (mut r, a) = TransferRunner::new(job(false, true, "%Y-%m-%d", Mode::Copy), true);
    assert!(matches!(a, Action::ListDir { ref path } if path.as_str() == "/src"));
    let a = r.step(Event::DirListed { entries: vec![file("a.jpg"), file("b.jpg")] });
    assert!(matches!(a, Action::StatFile { ref path } if path.as_str() == "/src/a.jpg"));
    let a = r.step(Event::StatOk { created_secs: JAN_1_2023 });
    assert!(matches!(a, Action::CreateDirAll { ref path } if path.as_str() == "/dst/2023-01-01"));
    let a = r.step(Event::DirCreated);
    assert_copy(&a, "/src/a.jpg", "/dst/2023-01-01/a.jpg");
    let a = r.step(Event::CopyOk);
    assert!(matches!(a, Action::StatFile { ref path } if path.as_str() == "/src/b.jpg"));
    let a = r.step(Event::StatOk { created_secs: JAN_2_2023 });
    assert!(matches!(a, Action::CreateDirAll { ref path } if path.as_str() == "/dst/2023-01-02"));
    let a = r.step(Event::DirCreated);
    assert_copy(&a, "/src/b.jpg", "/dst/2023-01-02/b.jpg");
    let a = r.step(Event::CopyOk);
    assert!(matches!(a, Action::Finish));
    assert!(r.is_done());
    let report = r.into_result().unwrap();
    assert_eq!(report.succeeded, 2);
    assert_eq!(report.failed, 0);
    assert_eq!(report.outcomes.len(), 2);
    assert_eq!(report.outcomes[0].path.as_str(), "/src/a.jpg");
    assert_eq!(report.outcomes[1].path.as_str(), "/src/b.jpg");
    assert!(matches!(report.outcomes[0].kind, OutcomeKind::Succeeded));
    assert!(matches!(report.outcomes[1].kind, OutcomeKind::Succeeded));
}

#[test]
fn move_grouped_by_creation_date() {
    let (mut r, _) = TransferRunner::new(job(false, true, "%Y-%m-%d", Mode::Move), true);
    let a = r.step(Event::DirListed { entries: vec![file("a.jpg"), file("b.jpg")] });
    assert!(matches!(a, Action::StatFile { .. }));
    let a = r.step(Event::StatOk { created_secs: JAN_1_2023 });
    assert!(matches!(a, Action::CreateDirAll { ref path } if path.as_str() == "/dst/2023-01-01"));
    let a = r.step(Event::DirCreated);
    assert_rename(&a, "/src/a.jpg", "/dst/2023-01-01/a.jpg");
    let a = r.step(Event::RenameOk);
    assert!(matches!(a, Action::StatFile { ref path } if path.as_str() == "/src/b.jpg"));
    let a = r.step(Event::StatOk { created_secs: JAN_2_2023 });
    let a = r.step(Event::DirCreated);
    assert_rename(&a, "/src/b.jpg", "/dst/2023-01-02/b.jpg");
    let a = r.step(Event::RenameOk);
    assert!(matches!(a, Action::Finish));
    let report = r.into_result().unwrap();
    assert_eq!(report.succeeded, 2);
    assert_eq!(report.failed, 0);
}

#[test]
fn recursive_walk_reaches_subdirectory() {
    let (mut r, a) = TransferRunner::new(job(true, true, "%Y-%m-%d", Mode::Copy), true);
    assert!(matches!(a, Action::ListDir { ref path } if path.as_str() == "/src"));
    let a = r.step(Event::DirListed { entries: vec![dir("sub")] });
    assert!(matches!(a, Action::ListDir { ref path } if path.as_str() == "/src/sub"));
    let a = r.step(Event::DirListed { entries: vec![file("c.jpg")] });
    assert!(matches!(a, Action::StatFile { ref path } if path.as_str() == "/src/sub/c.jpg"));
    let a = r.step(Event::StatOk { created_secs: MAR_3_2023 });
    assert!(matches!(a, Action::CreateDirAll { ref path } if path.as_str() == "/dst/2023-03-03"));
    let a = r.step(Event::DirCreated);
    assert_copy(&a, "/src/sub/c.jpg", "/dst/2023-03-03/c.jpg");
    let a = r.step(Event::CopyOk);
    assert!(matches!(a, Action::Finish));
    let report = r.into_result().unwrap();
    assert_eq!(report.succeeded, 1);
    assert_eq!(report.failed, 0);
}

#[test]
fn ungrouped_copies_directly_into_destination() {
    let (mut r, _) = TransferRunner::new(job(false, false, "%Y-%m-%d", Mode::Copy), true);
    let a = r.step(Event::DirListed { entries: vec![file("a.jpg"), file("b.jpg")] });
    assert_copy(&a, "/src/a.jpg", "/dst/a.jpg");
    let a = r.step(Event::CopyOk);
    assert_copy(&a, "/src/b.jpg", "/dst/b.jpg");
    let a = r.step(Event::CopyOk);
    assert!(matches!(a, Action::Finish));
    let report = r.into_result().unwrap();
    assert_eq!(report.succeeded, 2);
}

#[test]
fn empty_date_format_fails_the_job_before_any_file() {
    let (r, a) = TransferRunner::new(job(true, true, "", Mode::Copy), true);
    assert!(matches!(a, Action::Finish));
    assert!(r.is_done());
    match r.into_result() {
        Err(JobError::InvalidDateFormat) => {},
        other => panic!("expected an invalid date format error, got {:?}", other),
    }
}

#[test]
fn unparseable_date_format_fails_the_job() {
    let (r, a) = TransferRunner::new(job(false, true, "%Q", Mode::Copy), true);
    assert!(matches!(a, Action::Finish));
    match r.into_result() {
        Err(JobError::InvalidDateFormat) => {},
        other => panic!("expected an invalid date format error, got {:?}", other),
    }
}

#[test]
fn bad_date_format_is_ignored_without_grouping() {
    let (mut r, a) = TransferRunner::new(job(false, false, "", Mode::Copy), true);
    assert!(matches!(a, Action::ListDir { .. }));
    let a = r.step(Event::DirListed { entries: vec![file("a.jpg")] });
    assert_copy(&a, "/src/a.jpg", "/dst/a.jpg");
    let a = r.step(Event::CopyOk);
    assert!(matches!(a, Action::Finish));
    assert_eq!(r.into_result().unwrap().succeeded, 1);
}

#[test]
fn missing_source_root_fails_the_job() {
    let (r, a) = TransferRunner::new(job(false, true, "%Y-%m-%d", Mode::Copy), false);
    assert!(matches!(a, Action::Finish));
    match r.into_result() {
        Err(JobError::SourceRootInvalid) => {},
        other => panic!("expected a source root error, got {:?}", other),
    }
}

#[test]
fn one_failed_transfer_isolates_the_others() {
    let (mut r, _) = TransferRunner::new(job(false, false, "%Y-%m-%d", Mode::Copy), true);
    let a = r.step(
        Event::DirListed { entries: vec![file("a.jpg"), file("b.jpg"), file("c.jpg")] },
    );
    assert_copy(&a, "/src/a.jpg", "/dst/a.jpg");
    let a = r.step(Event::CopyOk);
    assert_copy(&a, "/src/b.jpg", "/dst/b.jpg");
    let a = r.step(Event::CopyFailed { reason: String::from("permission denied") });
    assert_copy(&a, "/src/c.jpg", "/dst/c.jpg");
    let a = r.step(Event::CopyOk);
    assert!(matches!(a, Action::Finish));
    let report = r.into_result().unwrap();
    assert_eq!(report.outcomes.len(), 3);
    assert_eq!(report.succeeded, 2);
    assert_eq!(report.failed, 1);
    match &report.outcomes[1].kind {
        OutcomeKind::Failed { reason, stage, destination_written } => {
            assert_eq!(reason.as_str(), "permission denied");
            assert_eq!(*stage, FailureStage::Transfer);
            assert!(!destination_written);
        },
        other => panic!("expected a failure, got {:?}", other),
    }
    assert!(matches!(report.outcomes[0].kind, OutcomeKind::Succeeded));
    assert!(matches!(report.outcomes[2].kind, OutcomeKind::Succeeded));
}

#[test]
fn non_recursive_walk_never_descends() {
    let (mut r, _) = TransferRunner::new(job(false, false, "%Y-%m-%d", Mode::Copy), true);
    let a = r.step(
        Event::DirListed { entries: vec![file("a.jpg"), dir("sub"), file("b.jpg")] },
    );
    assert_copy(&a, "/src/a.jpg", "/dst/a.jpg");
    let a = r.step(Event::CopyOk);
    assert_copy(&a, "/src/b.jpg", "/dst/b.jpg");
    let a = r.step(Event::CopyOk);
    assert!(matches!(a, Action::Finish));
    let report = r.into_result().unwrap();
    assert_eq!(report.outcomes.len(), 2);
    assert_eq!(report.succeeded, 2);
}

#[test]
fn symlinked_directory_is_not_followed() {
    let (mut r, _) = TransferRunner::new(job(true, false, "%Y-%m-%d", Mode::Copy), true);
    let entries = vec![
        DirEntry { name: String::from("loop"), kind: EntryKind::SymlinkDir },
        file("a.jpg"),
    ];
    let a = r.step(Event::DirListed { entries });
    assert_copy(&a, "/src/a.jpg", "/dst/a.jpg");
    let a = r.step(Event::CopyOk);
    assert!(matches!(a, Action::Finish));
    assert_eq!(r.into_result().unwrap().outcomes.len(), 1);
}

#[test]
fn move_falls_back_to_copy_and_delete() {
    let (mut r, _) = TransferRunner::new(job(false, false, "%Y-%m-%d", Mode::Move), true);
    let a = r.step(Event::DirListed { entries: vec![file("a.jpg")] });
    assert_rename(&a, "/src/a.jpg", "/dst/a.jpg");
    let a = r.step(Event::RenameFailed { reason: String::from("cross-device link") });
    assert_copy(&a, "/src/a.jpg", "/dst/a.jpg");
    let a = r.step(Event::CopyOk);
    assert!(matches!(a, Action::RemoveSourceFile { ref path } if path.as_str() == "/src/a.jpg"));
    let a = r.step(Event::RemoveOk);
    assert!(matches!(a, Action::Finish));
    let report = r.into_result().unwrap();
    assert_eq!(report.succeeded, 1);
    assert_eq!(report.failed, 0);
}

#[test]
fn failed_source_cleanup_is_reported_with_destination_written() {
    let (mut r, _) = TransferRunner::new(job(false, false, "%Y-%m-%d", Mode::Move), true);
    let a = r.step(Event::DirListed { entries: vec![file("a.jpg")] });
    assert_rename(&a, "/src/a.jpg", "/dst/a.jpg");
    let a = r.step(Event::RenameFailed { reason: String::from("cross-device link") });
    assert_copy(&a, "/src/a.jpg", "/dst/a.jpg");
    let a = r.step(Event::CopyOk);
    assert!(matches!(a, Action::RemoveSourceFile { .. }));
    let a = r.step(Event::RemoveFailed { reason: String::from("read-only source") });
    assert!(matches!(a, Action::Finish));
    let report = r.into_result().unwrap();
    assert_eq!(report.succeeded, 0);
    assert_eq!(report.failed, 1);
    match &report.outcomes[0].kind {
        OutcomeKind::Failed { reason, stage, destination_written } => {
            assert_eq!(reason.as_str(), "read-only source");
            assert_eq!(*stage, FailureStage::SourceCleanup);
            assert!(*destination_written);
        },
        other => panic!("expected a cleanup failure, got {:?}", other),
    }
}

#[test]
fn failed_stat_isolates_only_that_file() {
    let (mut r, _) = TransferRunner::new(job(false, true, "%Y-%m-%d", Mode::Copy), true);
    let a = r.step(Event::DirListed { entries: vec![file("a.jpg"), file("b.jpg")] });
    assert!(matches!(a, Action::StatFile { .. }));
    let a = r.step(Event::StatFailed { reason: String::from("no creation time") });
    assert!(matches!(a, Action::StatFile { ref path } if path.as_str() == "/src/b.jpg"));
    let a = r.step(Event::StatOk { created_secs: JAN_1_2023 });
    let a2 = r.step(Event::DirCreated);
    assert_copy(&a2, "/src/b.jpg", "/dst/2023-01-01/b.jpg");
    assert!(matches!(a, Action::CreateDirAll { .. }));
    let a = r.step(Event::CopyOk);
    assert!(matches!(a, Action::Finish));
    let report = r.into_result().unwrap();
    assert_eq!(report.succeeded, 1);
    assert_eq!(report.failed, 1);
    match &report.outcomes[0].kind {
        OutcomeKind::Failed { stage, destination_written, .. } => {
            assert_eq!(*stage, FailureStage::Stat);
            assert!(!destination_written);
        },
        other => panic!("expected a stat failure, got {:?}", other),
    }
}

#[test]
fn failed_directory_creation_isolates_only_that_file() {
    let (mut r, _) = TransferRunner::new(job(false, true, "%Y-%m-%d", Mode::Copy), true);
    let a = r.step(Event::DirListed { entries: vec![file("a.jpg"), file("b.jpg")] });
    assert!(matches!(a, Action::StatFile { .. }));
    let a = r.step(Event::StatOk { created_secs: JAN_1_2023 });
    assert!(matches!(a, Action::CreateDirAll { .. }));
    let a = r.step(Event::DirCreateFailed { reason: String::from("disk full") });
    assert!(matches!(a, Action::StatFile { ref path } if path.as_str() == "/src/b.jpg"));
    let a = r.step(Event::StatOk { created_secs: JAN_2_2023 });
    let a = r.step(Event::DirCreated);
    assert_copy(&a, "/src/b.jpg", "/dst/2023-01-02/b.jpg");
    let a = r.step(Event::CopyOk);
    assert!(matches!(a, Action::Finish));
    let report = r.into_result().unwrap();
    assert_eq!(report.succeeded, 1);
    assert_eq!(report.failed, 1);
    match &report.outcomes[0].kind {
        OutcomeKind::Failed { reason, stage, .. } => {
            assert_eq!(reason.as_str(), "disk full");
            assert_eq!(*stage, FailureStage::DirectoryCreate);
        },
        other => panic!("expected a directory creation failure, got {:?}", other),
    }
}

#[test]
fn unlistable_directory_is_reported_and_walk_continues() {
    let (mut r, _) = TransferRunner::new(job(true, false, "%Y-%m-%d", Mode::Copy), true);
    let a = r.step(Event::DirListed { entries: vec![dir("s1"), dir("s2")] });
    assert!(matches!(a, Action::ListDir { ref path } if path.as_str() == "/src/s2"));
    let a = r.step(Event::DirListFailed { reason: String::from("permission denied") });
    assert!(matches!(a, Action::ListDir { ref path } if path.as_str() == "/src/s1"));
    let a = r.step(Event::DirListed { entries: vec![file("c.jpg")] });
    assert_copy(&a, "/src/s1/c.jpg", "/dst/c.jpg");
    let a = r.step(Event::CopyOk);
    assert!(matches!(a, Action::Finish));
    let report = r.into_result().unwrap();
    assert_eq!(report.outcomes.len(), 2);
    assert_eq!(report.succeeded, 1);
    assert_eq!(report.failed, 1);
    assert_eq!(report.outcomes[0].path.as_str(), "/src/s2");
    match &report.outcomes[0].kind {
        OutcomeKind::Failed { stage, .. } => assert_eq!(*stage, FailureStage::Stat),
        other => panic!("expected a listing failure, got {:?}", other),
    }
}

#[test]
fn same_formatted_date_reuses_the_grouping_directory() {
    let (mut r, _) = TransferRunner::new(job(false, true, "%Y-%m-%d", Mode::Copy), true);
    let a = r.step(Event::DirListed { entries: vec![file("a.jpg"), file("b.jpg")] });
    assert!(matches!(a, Action::StatFile { .. }));
    let a = r.step(Event::StatOk { created_secs: JAN_1_2023 });
    assert!(matches!(a, Action::CreateDirAll { ref path } if path.as_str() == "/dst/2023-01-01"));
    let a = r.step(Event::DirCreated);
    assert_copy(&a, "/src/a.jpg", "/dst/2023-01-01/a.jpg");
    let a = r.step(Event::CopyOk);
    assert!(matches!(a, Action::StatFile { .. }));
    // Same day, later time: same folder, and no second creation request.
    let a = r.step(Event::StatOk { created_secs: JAN_1_2023 + 3600 });
    assert_copy(&a, "/src/b.jpg", "/dst/2023-01-01/b.jpg");
    let a = r.step(Event::CopyOk);
    assert!(matches!(a, Action::Finish));
    assert_eq!(r.into_result().unwrap().succeeded, 2);
}

#[test]
fn year_only_format_groups_by_year() {
    let (mut r, _) = TransferRunner::new(job(false, true, "%Y", Mode::Copy), true);
    let a = r.step(Event::DirListed { entries: vec![file("a.jpg")] });
    assert!(matches!(a, Action::StatFile { .. }));
    let a = r.step(Event::StatOk { created_secs: JAN_1_2023 });
    assert!(matches!(a, Action::CreateDirAll { ref path } if path.as_str() == "/dst/2023"));
    let a = r.step(Event::DirCreated);
    assert_copy(&a, "/src/a.jpg", "/dst/2023/a.jpg");
    let a = r.step(Event::CopyOk);
    assert!(matches!(a, Action::Finish));
}

#[test]
fn unexpected_event_leaves_the_runner_waiting() {
    let (mut r, a) = TransferRunner::new(job(false, false, "%Y-%m-%d", Mode::Copy), true);
    assert!(matches!(a, Action::ListDir { ref path } if path.as_str() == "/src"));
    let a = r.step(Event::CopyOk);
    assert!(matches!(a, Action::ListDir { ref path } if path.as_str() == "/src"));
    let a = r.step(Event::DirListed { entries: vec![file("a.jpg")] });
    assert_copy(&a, "/src/a.jpg", "/dst/a.jpg");
}

#[test]
fn empty_source_gives_an_empty_report() {
    let (mut r, _) = TransferRunner::new(job(true, true, "%Y-%m-%d", Mode::Copy), true);
    let a = r.step(Event::DirListed { entries: vec![] });
    assert!(matches!(a, Action::Finish));
    let report = r.into_result().unwrap();
    assert_eq!(report.outcomes.len(), 0);
    assert_eq!(report.succeeded, 0);
    assert_eq!(report.failed, 0);
}
