use processor_rust::errors::{CleanupError, InitError};
use processor_rust::lifecycle::{
    setup_advance, teardown_advance, SetupPhase, TeardownPhase,
};

#[test]
fn a_stale_region_changes_nothing_about_startup() {
    let with_stale = setup_advance(SetupPhase::RemovingStale, true);
    let without_stale = setup_advance(SetupPhase::RemovingStale, false);
    assert_eq!(with_stale, without_stale);
    assert_eq!(with_stale.next, SetupPhase::Creating);
    assert_eq!(with_stale.error, None);
    assert!(!with_stale.unlink_region);
    assert!(!with_stale.close_handle);
}

#[test]
fn setup_happy_path_reaches_ready() {
    let mut phase = SetupPhase::RemovingStale;
    for _ in 0..4 {
        let outcome = setup_advance(phase, true);
        assert_eq!(outcome.error, None);
        phase = outcome.next;
    }
    assert_eq!(phase, SetupPhase::Ready);
}

#[test]
fn create_failure_aborts_with_nothing_to_clean() {
    let outcome = setup_advance(SetupPhase::Creating, false);
    assert_eq!(outcome.next, SetupPhase::Aborted);
    assert_eq!(outcome.error, Some(InitError::CreateFailed));
    assert!(!outcome.unlink_region);
    assert!(!outcome.close_handle);
}

#[test]
fn size_failure_closes_the_handle() {
    let outcome = setup_advance(SetupPhase::Sizing, false);
    assert_eq!(outcome.next, SetupPhase::Aborted);
    assert_eq!(outcome.error, Some(InitError::SizeFailed));
    assert!(!outcome.unlink_region);
    assert!(outcome.close_handle);
}

#[test]
fn map_failure_unlinks_and_closes() {
    let outcome = setup_advance(SetupPhase::Mapping, false);
    assert_eq!(outcome.next, SetupPhase::Aborted);
    assert_eq!(outcome.error, Some(InitError::MapFailed));
    assert!(outcome.unlink_region);
    assert!(outcome.close_handle);
}

#[test]
fn teardown_advances_past_a_failing_step() {
    let (next, err) = teardown_advance(TeardownPhase::Unmapping, false);
    assert_eq!(next, TeardownPhase::Unlinking);
    assert_eq!(err, Some(CleanupError::UnmapFailed));

    let (next, err) = teardown_advance(next, false);
    assert_eq!(next, TeardownPhase::Closing);
    assert_eq!(err, Some(CleanupError::UnlinkFailed));

    let (next, err) = teardown_advance(next, false);
    assert_eq!(next, TeardownPhase::Finished);
    assert_eq!(err, Some(CleanupError::CloseFailed));
}

#[test]
fn teardown_reports_nothing_on_success() {
    let (next, err) = teardown_advance(TeardownPhase::Unmapping, true);
    assert_eq!(next, TeardownPhase::Unlinking);
    assert_eq!(err, None);
    let (next, err) = teardown_advance(TeardownPhase::Closing, true);
    assert_eq!(next, TeardownPhase::Finished);
    assert_eq!(err, None);
}
