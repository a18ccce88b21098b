use rapidraw::preview::{next_generation_number, PreviewGenerationTracker, PREVIEW_SUPERSEDED};

#[test]
fn newer_preview_generation_supersedes_older_work() {
    let tracker = PreviewGenerationTracker::new();
    let first = tracker.next();
    assert!(first.is_current());

    let second = tracker.next();
    assert!(!first.is_current());
    assert!(second.is_current());
    assert_eq!(first.ensure_current().unwrap_err(), PREVIEW_SUPERSEDED);
}

#[test]
fn snapshot_is_invalidated_when_preview_work_starts() {
    let tracker = PreviewGenerationTracker::new();
    let idle_snapshot = tracker.snapshot();
    assert!(idle_snapshot.is_current());

    let active = tracker.next();
    assert!(!idle_snapshot.is_current());
    assert!(active.is_current());
}

#[test]
fn generations_count_up_from_one() {
    let tracker = PreviewGenerationTracker::new();
    assert_eq!(tracker.snapshot().number(), 0);
    let first = tracker.next();
    assert_eq!(first.number(), 1);
    assert_eq!(tracker.next().number(), 2);
    assert_eq!(tracker.snapshot().number(), 2);
    assert!(first.is_current_at(1));
    assert!(!first.is_current_at(2));
    assert_eq!(first.ensure_current(), Err(PREVIEW_SUPERSEDED.to_string()));
    let clone = first.clone();
    assert_eq!(clone.number(), 1);
}

#[test]
fn commit_lock_can_be_taken_and_released() {
    let tracker = PreviewGenerationTracker::new();
    let first = tracker.next();
    {
        let _guard = first.commit_lock().lock().unwrap();
    }
    // A generation commits under its tracker's lock.
    assert!(std::ptr::eq(first.commit_lock(), tracker.commit_lock()));
    let second = tracker.next();
    assert_eq!(second.number(), 2);
    assert_eq!(second.ensure_current(), Ok(()));
}

#[test]
fn generation_numbers_wrap() {
    assert_eq!(next_generation_number(0), 1);
    assert_eq!(next_generation_number(41), 42);
    assert_eq!(next_generation_number(usize::MAX), 0);
}

#[test]
fn ensure_current_decides_by_the_counter_value() {
    let tracker = PreviewGenerationTracker::default();
    let first = tracker.next();
    assert_eq!(first.ensure_current_at(1), Ok(()));
    assert_eq!(first.ensure_current_at(2), Err(PREVIEW_SUPERSEDED.to_string()));
    assert_eq!(first.ensure_current_at(0), Err(PREVIEW_SUPERSEDED.to_string()));
    assert_eq!(first.ensure_current(), Ok(()));
    tracker.next();
    assert_eq!(first.ensure_current(), Err(PREVIEW_SUPERSEDED.to_string()));
}
