use rapidraw::gpu::{GpuAcquireStep, GpuWorkPriority, GpuWorkQueueState, GpuWorkScheduler};

#[test]
fn gpu_scheduler_prefers_higher_waiting_priorities() {
    let mut state = GpuWorkQueueState::new();
    state.enqueue(GpuWorkPriority::VisibleThumbnail);
    state.enqueue(GpuWorkPriority::Interactive);

    assert!(!state.can_acquire(GpuWorkPriority::VisibleThumbnail));
    assert!(state.can_acquire(GpuWorkPriority::Interactive));
}

#[test]
fn one_permit_at_a_time_and_release_frees_the_gpu() {
    let mut state = GpuWorkQueueState::new();
    state.enqueue(GpuWorkPriority::Export);
    state.enqueue(GpuWorkPriority::Export);
    assert!(state.can_acquire(GpuWorkPriority::Export));
    state.grant(GpuWorkPriority::Export);
    assert!(!state.is_idle());
    assert_eq!(state.waiting_at(GpuWorkPriority::Export), 1);
    assert!(!state.can_acquire(GpuWorkPriority::Export));
    assert!(!state.can_acquire(GpuWorkPriority::Interactive));
    state.release();
    assert!(state.is_idle());
    assert!(state.can_acquire(GpuWorkPriority::Export));
    state.withdraw(GpuWorkPriority::Export);
    assert_eq!(state.waiting_at(GpuWorkPriority::Export), 0);
}

#[test]
fn priorities_are_ordered_by_urgency() {
    assert_eq!(GpuWorkPriority::Export.index(), 0);
    assert_eq!(GpuWorkPriority::Background.index(), 1);
    assert_eq!(GpuWorkPriority::VisibleThumbnail.index(), 2);
    assert_eq!(GpuWorkPriority::SelectedThumbnail.index(), 3);
    assert_eq!(GpuWorkPriority::Interactive.index(), 4);
    assert!(GpuWorkPriority::Interactive > GpuWorkPriority::SelectedThumbnail);
    assert!(GpuWorkPriority::Background > GpuWorkPriority::Export);
}

#[test]
fn scheduler_grants_registered_work_when_free() {
    let scheduler = GpuWorkScheduler::new();
    assert_eq!(
        scheduler.acquire_step(GpuWorkPriority::Background),
        GpuAcquireStep::NotRegistered
    );
    assert!(scheduler.register(GpuWorkPriority::Background));
    assert_eq!(
        scheduler.acquire_step(GpuWorkPriority::Background),
        GpuAcquireStep::Granted
    );
    assert!(scheduler.register(GpuWorkPriority::Interactive));
    assert!(scheduler.withdraw(GpuWorkPriority::Interactive));
    assert!(!scheduler.withdraw(GpuWorkPriority::Interactive));
    scheduler.release();
    assert!(scheduler.register(GpuWorkPriority::Export));
    assert_eq!(
        scheduler.acquire_step(GpuWorkPriority::Export),
        GpuAcquireStep::Granted
    );
    scheduler.release();
}

#[test]
fn try_acquire_grants_waits_or_reports_no_ticket() {
    let mut state = GpuWorkQueueState::new();
    assert_eq!(
        state.try_acquire(GpuWorkPriority::Background),
        GpuAcquireStep::NotRegistered
    );
    assert!(state.is_idle());
    assert!(state.try_enqueue(GpuWorkPriority::Background));
    assert!(state.try_enqueue(GpuWorkPriority::Interactive));
    // A more urgent ticket waits: the background ticket has to wait.
    assert_eq!(
        state.try_acquire(GpuWorkPriority::Background),
        GpuAcquireStep::Waited
    );
    assert_eq!(state.waiting_at(GpuWorkPriority::Background), 1);
    assert!(state.is_idle());
    assert_eq!(
        state.try_acquire(GpuWorkPriority::Interactive),
        GpuAcquireStep::Granted
    );
    assert!(!state.is_idle());
    assert_eq!(state.waiting_at(GpuWorkPriority::Interactive), 0);
    assert_eq!(state.waiting_at(GpuWorkPriority::Background), 1);
    // The permit is out: even an unregistered priority has to wait.
    assert_eq!(
        state.try_acquire(GpuWorkPriority::Export),
        GpuAcquireStep::Waited
    );
    state.release();
    assert_eq!(
        state.try_acquire(GpuWorkPriority::Background),
        GpuAcquireStep::Granted
    );
    assert_eq!(state.waiting_at(GpuWorkPriority::Background), 0);
}

#[test]
fn try_withdraw_needs_a_waiting_ticket() {
    let mut state = GpuWorkQueueState::new();
    assert!(!state.try_withdraw(GpuWorkPriority::Export));
    assert!(state.try_enqueue(GpuWorkPriority::Export));
    assert!(state.try_enqueue(GpuWorkPriority::Export));
    assert_eq!(state.waiting_at(GpuWorkPriority::Export), 2);
    assert!(state.try_withdraw(GpuWorkPriority::Export));
    assert_eq!(state.waiting_at(GpuWorkPriority::Export), 1);
    assert_eq!(state.waiting_at(GpuWorkPriority::Background), 0);
}

#[test]
fn scheduler_makes_lower_priorities_wait_for_the_permit() {
    let scheduler = GpuWorkScheduler::new();
    assert!(scheduler.register(GpuWorkPriority::Interactive));
    assert_eq!(
        scheduler.acquire_step(GpuWorkPriority::Interactive),
        GpuAcquireStep::Granted
    );
    // The permit is out: a second grant is refused until it is released.
    assert!(scheduler.register(GpuWorkPriority::Interactive));
    scheduler.release();
    assert_eq!(
        scheduler.acquire_step(GpuWorkPriority::Interactive),
        GpuAcquireStep::Granted
    );
    assert!(!scheduler.withdraw(GpuWorkPriority::Interactive));
    scheduler.release();
}
