use rapidraw::thumbnail_queue::{
    AdjustedThumbnailQueueState, ReadyStep, ADJUSTED_THUMBNAIL_IDLE_DELAY_NANOS,
};

const MS: u128 = 1_000_000;
const DELAY: u128 = ADJUSTED_THUMBNAIL_IDLE_DELAY_NANOS;

#[test]
fn adjusted_thumbnail_saves_coalesce_by_path() {
    let now = 0;
    let mut state = AdjustedThumbnailQueueState::new(now);

    state.schedule("one.raw".to_string(), now);
    state.schedule("one.raw".to_string(), now + 250 * MS);

    assert_eq!(state.pending_len(), 1);
    assert!(state.take_ready(now + DELAY).is_none());
    let job = state.take_ready(now + DELAY + 250 * MS).unwrap();
    assert_eq!(job.path(), "one.raw");
}

#[test]
fn editor_activity_postpones_adjusted_thumbnail_work() {
    let now = 0;
    let mut state = AdjustedThumbnailQueueState::new(now);
    state.schedule("one.raw".to_string(), now);
    state.note_editor_activity(now + 1_000 * MS);

    assert!(state.take_ready(now + DELAY).is_none());
    let job = state.take_ready(now + DELAY + 1_000 * MS).unwrap();
    assert_eq!(job.path(), "one.raw");
}

#[test]
fn newest_ready_adjusted_thumbnail_runs_first() {
    let now = 0;
    let mut state = AdjustedThumbnailQueueState::new(now);
    state.schedule("older.raw".to_string(), now);
    state.schedule("selected.raw".to_string(), now + 10 * MS);

    let job = state.take_ready(now + DELAY + 10 * MS).unwrap();
    assert_eq!(job.path(), "selected.raw");
}

#[test]
fn virtual_copy_thumbnail_revisions_are_independent() {
    let now = 0;
    let mut state = AdjustedThumbnailQueueState::new(now);
    let base_revision = state.schedule("one.raw".to_string(), now);
    let copy_revision = state.schedule("one.raw?vc=copy".to_string(), now);

    state.schedule("one.raw".to_string(), now + MS);

    assert_ne!(state.snapshot("one.raw"), base_revision);
    assert_eq!(state.snapshot("one.raw?vc=copy"), copy_revision);
}

#[test]
fn newer_save_invalidates_an_inflight_adjusted_thumbnail() {
    let now = 0;
    let mut state = AdjustedThumbnailQueueState::new(now);
    state.schedule("one.raw".to_string(), now);
    let inflight = state.take_ready(now + DELAY).unwrap();

    state.schedule("one.raw".to_string(), now + DELAY + MS);

    assert!(!state.is_current(&inflight));
    assert_eq!(state.pending_len(), 1);
}

#[test]
fn cancellation_invalidates_pending_and_inflight_jobs() {
    let now = 0;
    let mut state = AdjustedThumbnailQueueState::new(now);
    state.schedule("one.raw".to_string(), now);
    let inflight = state.take_ready(now + DELAY).unwrap();
    state.schedule("two.raw".to_string(), now);

    state.cancel_all();

    assert!(!state.is_current(&inflight));
    assert_eq!(state.pending_len(), 0);
}

#[test]
fn cancellation_invalidates_unedited_visible_thumbnail_tokens() {
    let now = 0;
    let mut state = AdjustedThumbnailQueueState::new(now);
    let visible_worker_token = state.snapshot("never-edited.raw");

    state.cancel_all();

    assert_ne!(state.snapshot("never-edited.raw"), visible_worker_token);
}

#[test]
fn invalidation_precedes_persistence_and_arming() {
    let now = 0;
    let mut state = AdjustedThumbnailQueueState::new(now);
    let old_visible_worker_token = state.snapshot("one.raw");
    let save_token = state.invalidate("one.raw");

    assert_ne!(state.snapshot("one.raw"), old_visible_worker_token);
    assert_eq!(state.pending_len(), 0);

    state.arm_deferred("one.raw".to_string(), save_token, now);
    assert_eq!(state.pending_len(), 1);
}

#[test]
fn stale_tokens_neither_arm_nor_requeue() {
    let now = 0;
    let mut state = AdjustedThumbnailQueueState::new(now);
    let stale = state.invalidate("one.raw");
    let fresh = state.invalidate("one.raw");
    assert_ne!(stale, fresh);
    state.arm_deferred("one.raw".to_string(), stale, now);
    assert_eq!(state.pending_len(), 0);
    state.arm_deferred("one.raw".to_string(), fresh, now);
    assert_eq!(state.pending_len(), 1);

    let job = state.take_ready(now + DELAY).unwrap();
    assert!(state.is_current(&job));
    assert_eq!(state.pending_len(), 0);
    state.requeue(&job, now + DELAY, 100 * MS);
    assert_eq!(state.pending_len(), 1);
    assert!(state.take_ready(now + DELAY + 99 * MS).is_none());
    let again = state.take_ready(now + DELAY + 100 * MS).unwrap();
    assert_eq!(again.path(), "one.raw");

    state.invalidate("one.raw");
    state.requeue(&again, now + DELAY, 0);
    assert_eq!(state.pending_len(), 0);
}

#[test]
fn invalidation_returns_the_current_token() {
    let mut state = AdjustedThumbnailQueueState::new(0);
    let token = state.invalidate("a.raw");
    assert_eq!(state.snapshot("a.raw"), token);
    let scheduled = state.schedule("a.raw".to_string(), 0);
    assert_eq!(state.snapshot("a.raw"), scheduled);
    assert_ne!(scheduled, token);
}

#[test]
fn wait_duration_covers_jobs_and_editor_activity() {
    let mut state = AdjustedThumbnailQueueState::new(0);
    assert_eq!(state.wait_duration(0), None);
    state.schedule("a.raw".to_string(), 100 * MS);
    state.schedule("b.raw".to_string(), 50 * MS);
    // The earliest job is b.raw at 50 ms + delay.
    assert_eq!(state.wait_duration(0), Some(50 * MS + DELAY));
    assert_eq!(state.wait_duration(50 * MS + DELAY), Some(0));
    assert_eq!(state.wait_duration(10 * DELAY), Some(0));
    // Editor activity pushes the wake-up time out.
    state.note_editor_activity(1_000 * MS);
    assert_eq!(state.wait_duration(1_000 * MS), Some(DELAY));
    assert!(state.take_ready(1_000 * MS + DELAY - 1).is_none());
    let job = state.take_ready(1_000 * MS + DELAY).unwrap();
    assert_eq!(job.path(), "b.raw");
    let job = state.take_ready(1_000 * MS + DELAY).unwrap();
    assert_eq!(job.path(), "a.raw");
    assert!(state.take_ready(1_000 * MS + DELAY).is_none());
}

#[test]
fn poll_hands_out_ready_work_or_says_how_long_to_sleep() {
    let now = 0;
    let mut state = AdjustedThumbnailQueueState::new(now);
    assert_eq!(state.poll(now), ReadyStep::Idle);
    state.schedule("one.raw".to_string(), now);
    assert_eq!(state.poll(now + 500 * MS), ReadyStep::Sleep(DELAY - 500 * MS));
    assert_eq!(state.pending_len(), 1);
    // Editor activity pushes the wake-up time back.
    state.note_editor_activity(now + 1_000 * MS);
    assert_eq!(state.poll(now + DELAY), ReadyStep::Sleep(1_000 * MS));
    match state.poll(now + DELAY + 1_000 * MS) {
        ReadyStep::Run(job) => {
            assert_eq!(job.path(), "one.raw");
            assert!(state.is_current(&job));
        }
        other => panic!("expected a job, got {other:?}"),
    }
    assert_eq!(state.pending_len(), 0);
    assert_eq!(state.poll(now + DELAY + 1_000 * MS), ReadyStep::Idle);
}

#[test]
fn cancel_all_makes_tokens_of_earlier_epochs_stale() {
    let mut state = AdjustedThumbnailQueueState::new(0);
    let untouched = state.snapshot("never-saved.raw");
    let saved = state.schedule("one.raw".to_string(), 0);
    state.cancel_all();
    let after_first = state.snapshot("never-saved.raw");
    state.cancel_all();
    assert_ne!(state.snapshot("never-saved.raw"), untouched);
    assert_ne!(state.snapshot("never-saved.raw"), after_first);
    assert_ne!(state.snapshot("one.raw"), saved);
    assert_eq!(state.poll(DELAY), ReadyStep::Idle);
}
