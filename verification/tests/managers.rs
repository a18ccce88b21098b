use rapidraw::records::{GeoLocationResult, ThumbnailProgressTracker, WindowState};
use rapidraw::thumbnail_manager::{AdjustedThumbnailManager, MetadataManager, ThumbnailManager};
use std::sync::atomic::Ordering;
use std::time::{Duration, Instant};

#[test]
fn adjusted_thumbnail_manager_runs_scheduled_work_after_the_idle_delay() {
    let manager = AdjustedThumbnailManager::new();
    let start = Instant::now();
    manager.schedule("one.raw".to_string());
    let job = loop {
        if let Some(job) = manager.wait_step() {
            break job;
        }
    };
    assert_eq!(job.path(), "one.raw");
    assert!(start.elapsed() >= Duration::from_millis(1_400));
    assert!(manager.is_current(&job));

    // Requeued current work comes back without the idle delay.
    manager.requeue(&job, Duration::ZERO);
    let again = loop {
        if let Some(job) = manager.wait_step() {
            break job;
        }
    };
    assert_eq!(again.path(), "one.raw");

    manager.cancel_all();
    assert!(!manager.is_current(&again));
}

#[test]
fn adjusted_thumbnail_manager_tracks_revisions() {
    let manager = AdjustedThumbnailManager::new();
    let before = manager.snapshot_revision("one.raw");
    assert!(manager.revision_is_current("one.raw", before));
    let token = manager.invalidate("one.raw");
    assert!(!manager.revision_is_current("one.raw", before));
    assert!(manager.revision_is_current("one.raw", token));
    manager.arm_deferred("one.raw".to_string(), token);
    manager.note_editor_activity();
    let unrelated = manager.snapshot_revision("two.raw");
    manager.cancel_all();
    assert!(!manager.revision_is_current("two.raw", unrelated));
    assert!(!manager.revision_is_current("one.raw", token));
}

#[test]
fn background_managers_start_empty() {
    let thumbnails = ThumbnailManager::new();
    assert!(thumbnails.queue.lock().unwrap().is_empty());
    assert!(thumbnails.processing_now.lock().unwrap().is_empty());
    assert!(!thumbnails.rotational_disk.load(Ordering::SeqCst));
    let metadata = MetadataManager::new();
    assert!(metadata.queue.lock().unwrap().is_empty());
    assert!(metadata.pending.lock().unwrap().is_empty());
}

#[test]
fn records_keep_their_fields() {
    let window = WindowState { width: 1280, height: 800, x: -5, y: 10, maximized: false, fullscreen: true };
    assert_eq!(window.x, -5);
    let progress = ThumbnailProgressTracker { total: 10, completed: 3 };
    assert_eq!(progress.total - progress.completed, 7);
    let location = GeoLocationResult::new(
        "/photo.jpg".to_string(),
        "New York City".to_string(),
        "New York".to_string(),
        "".to_string(),
        "US".to_string(),
    );
    assert_eq!(location.path(), "/photo.jpg");
    assert_eq!(location.country_code(), "US");
    assert_eq!(location.name(), "New York City");
    assert_eq!(location.admin1(), "New York");
    assert_eq!(location.admin2(), "");
}
