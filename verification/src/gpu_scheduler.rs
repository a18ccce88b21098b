//! The shared GPU scheduler: the admission state behind a lock, with the
//! condition variable its waiting tickets sleep on. The state is changed
//! only through the verified transitions of `GpuWorkQueueState`, whose
//! fields this module cannot touch.
use crate::gpu::{GpuAcquireStep, GpuWorkPriority, GpuWorkQueueState};
use crate::sync::Monitor;
use std::sync::Arc;
use vstd::prelude::*;

verus! {

/// Shared admission to the GPU.
pub struct GpuWorkScheduler {
    state: Monitor<GpuWorkQueueState>,
}

impl GpuWorkScheduler {
    /// A scheduler with the GPU free and nothing waiting.
    pub fn new() -> Arc<Self> {
        Arc::new(GpuWorkScheduler { state: Monitor::new(GpuWorkQueueState::new()) })
    }

    /// Counts a new ticket of priority `p` as waiting and wakes the waiters
    /// (the new ticket may hold back less urgent ones); `false`, with nothing
    /// counted, when that count is already at `usize::MAX`.
    pub fn register(&self, p: GpuWorkPriority) -> bool {
        let mut guard = self.state.lock();
        let registered = guard.value().try_enqueue(p);
        if registered {
            self.state.notify_all();
        }
        registered
    }

    /// One attempt of a waiting ticket of priority `p` to start, decided by
    /// `GpuWorkQueueState::try_acquire` on the shared state; when the ticket
    /// has to wait, waits until the state changes before reporting so.
    pub fn acquire_step(&self, p: GpuWorkPriority) -> GpuAcquireStep {
        let mut guard = self.state.lock();
        let step = guard.value().try_acquire(p);
        match step {
            GpuAcquireStep::Waited => {
                let _guard = guard.wait();
            },
            _ => {},
        }
        step
    }

    /// A waiting ticket of priority `p` leaves without running, and the
    /// waiters are woken; `false` when no ticket of that priority was
    /// waiting.
    pub fn withdraw(&self, p: GpuWorkPriority) -> bool {
        let mut guard = self.state.lock();
        let withdrawn = guard.value().try_withdraw(p);
        if withdrawn {
            self.state.notify_all();
        }
        withdrawn
    }

    /// Gives the permit back and wakes the waiting tickets.
    pub fn release(&self) {
        let mut guard = self.state.lock();
        guard.value().release();
        self.state.notify_all();
    }
}

} // verus!
