//! The shared managers of background thumbnail and metadata work: queues
//! behind locks, with condition variables that wake the workers.
use crate::sync::{duration_with, Monitor};
use crate::thumbnail_queue::{
    armed, cancelled, hands_out, invalidated, nothing_ready, requeued, scheduled, sleep_for,
    snapshot_of, AdjustedThumbnailJob, AdjustedThumbnailQueueState, PendingAdjustedThumbnail,
    QueueModel, ReadyStep, ThumbnailRevision, MAX_DURATION_NANOS,
};
use std::collections::{HashSet, VecDeque};
use std::path::PathBuf;
use std::sync::atomic::AtomicBool;
use std::sync::{Arc, Condvar, Mutex};
use std::time::{Duration, Instant};
use vstd::prelude::*;

verus! {

/// Paths waiting for a plain thumbnail, and the workers' coordination.
pub struct ThumbnailManager {
    /// Paths waiting for a thumbnail, in request order.
    pub queue: Mutex<VecDeque<String>>,
    /// Wakes workers when paths are queued.
    pub cvar: Condvar,
    /// Paths a worker is rendering now.
    pub processing_now: Mutex<HashSet<String>>,
    /// Whether the library lives on a spinning disk.
    pub rotational_disk: AtomicBool,
    /// Serialises disk reads on a spinning disk.
    pub io_gate: Mutex<()>,
}

impl ThumbnailManager {
    /// A manager with nothing queued or in progress.
    pub fn new() -> Arc<Self> {
        Arc::new(
            ThumbnailManager {
                queue: Mutex::new(VecDeque::new()),
                cvar: Condvar::new(),
                processing_now: Mutex::new(HashSet::new()),
                rotational_disk: AtomicBool::new(false),
                io_gate: Mutex::new(()),
            },
        )
    }
}

/// Metadata waiting to be written to a sidecar file.
pub struct PendingMetadata {
    /// The library path (with a virtual-copy suffix, if any).
    pub virtual_path: String,
    /// The image file.
    pub image_path: PathBuf,
    /// The sidecar file to write.
    pub sidecar_path: PathBuf,
}

/// Sidecar writes waiting for a worker.
pub struct MetadataManager {
    /// Writes in request order.
    pub queue: Mutex<VecDeque<PendingMetadata>>,
    /// Wakes the worker when writes are queued.
    pub cvar: Condvar,
    /// Sidecars with a write queued.
    pub pending: Mutex<HashSet<PathBuf>>,
}

impl MetadataManager {
    /// A manager with nothing queued.
    pub fn new() -> Arc<Self> {
        Arc::new(
            MetadataManager {
                queue: Mutex::new(VecDeque::new()),
                cvar: Condvar::new(),
                pending: Mutex::new(HashSet::new()),
            },
        )
    }
}

/// The adjusted-thumbnail queue as it is kept behind the lock: always well
/// formed.
struct GuardedQueue {
    queue: AdjustedThumbnailQueueState,
}

impl GuardedQueue {
    #[verifier::type_invariant]
    spec fn inv(self) -> bool {
        self.queue.wf()
    }

    /// Moves the queue out, leaving an empty one in its place.
    fn take(&mut self) -> (q: AdjustedThumbnailQueueState)
        ensures
            q.wf(),
            q@ == old(self).queue@,
    {
        proof {
            use_type_invariant(&*self);
        }
        let mut q = AdjustedThumbnailQueueState::new(0);
        std::mem::swap(&mut self.queue, &mut q);
        q
    }

    fn schedule(&mut self, path: String, now: u128) -> (t: ThumbnailRevision)
        requires
            now <= MAX_DURATION_NANOS,
        ensures
            final(self).queue@ == scheduled(old(self).queue@, path@, now),
    {
        let mut q = self.take();
        let t = q.schedule(path, now);
        self.queue = q;
        t
    }

    fn invalidate(&mut self, path: &str) -> (t: ThumbnailRevision)
        ensures
            final(self).queue@ == invalidated(old(self).queue@, path@),
            t == snapshot_of(final(self).queue@, path@),
    {
        let mut q = self.take();
        let t = q.invalidate(path);
        self.queue = q;
        t
    }

    fn arm_deferred(&mut self, path: String, token: ThumbnailRevision, now: u128)
        requires
            now <= MAX_DURATION_NANOS,
        ensures
            final(self).queue@ == armed(old(self).queue@, path@, token, now),
    {
        let mut q = self.take();
        q.arm_deferred(path, token, now);
        self.queue = q;
    }

    fn note_editor_activity(&mut self, now: u128)
        requires
            now <= MAX_DURATION_NANOS,
        ensures
            final(self).queue@ == (QueueModel { last_editor_activity: now, ..old(self).queue@ }),
    {
        let mut q = self.take();
        q.note_editor_activity(now);
        self.queue = q;
    }

    fn poll(&mut self, now: u128) -> (r: ReadyStep)
        ensures
            match r {
                ReadyStep::Run(job) => {
                    &&& hands_out(old(self).queue@, now, job, final(self).queue@)
                    &&& job.token_spec() == snapshot_of(final(self).queue@, job.path_spec())
                },
                ReadyStep::Sleep(d) => {
                    &&& final(self).queue@ == old(self).queue@
                    &&& nothing_ready(old(self).queue@, now)
                    &&& sleep_for(old(self).queue@, now, d)
                },
                ReadyStep::Idle => {
                    &&& final(self).queue@ == old(self).queue@
                    &&& old(self).queue@.pending == Map::<
                        Seq<char>,
                        PendingAdjustedThumbnail,
                    >::empty()
                },
            },
    {
        let mut q = self.take();
        let step = q.poll(now);
        self.queue = q;
        step
    }

    fn is_current(&self, job: &AdjustedThumbnailJob) -> (b: bool)
        ensures
            b == (snapshot_of(self.queue@, job.path_spec()) == job.token_spec()),
    {
        proof {
            use_type_invariant(self);
        }
        self.queue.is_current(job)
    }

    fn revision_is_current(&self, path: &str, revision: ThumbnailRevision) -> (b: bool)
        ensures
            b == (snapshot_of(self.queue@, path@) == revision),
    {
        proof {
            use_type_invariant(self);
        }
        self.queue.revision_is_current(path, revision)
    }

    fn snapshot(&self, path: &str) -> (t: ThumbnailRevision)
        ensures
            t == snapshot_of(self.queue@, path@),
    {
        proof {
            use_type_invariant(self);
        }
        self.queue.snapshot(path)
    }

    fn requeue(&mut self, job: &AdjustedThumbnailJob, now: u128, delay: u128)
        requires
            now <= MAX_DURATION_NANOS,
            delay <= MAX_DURATION_NANOS,
        ensures
            final(self).queue@ == requeued(
                old(self).queue@,
                job.path_spec(),
                job.token_spec(),
                job.sequence_spec(),
                (now + delay) as u128,
            ),
    {
        let mut q = self.take();
        q.requeue(job, now, delay);
        self.queue = q;
    }

    fn cancel_all(&mut self)
        ensures
            final(self).queue@ == cancelled(old(self).queue@),
    {
        let mut q = self.take();
        q.cancel_all();
        self.queue = q;
    }
}

/// A `Duration` of `nanos` nanoseconds, or `Duration::MAX` when it would
/// be longer.
fn duration_from_nanos(nanos: u128) -> (d: Duration)
    ensures
        d == if nanos / 1_000_000_000 > u64::MAX {
            duration_with(u64::MAX, 999_999_999)
        } else {
            duration_with((nanos / 1_000_000_000) as u64, (nanos % 1_000_000_000) as u32)
        },
{
    let secs = nanos / 1_000_000_000;
    let subsec = nanos % 1_000_000_000;
    if secs > u64::MAX as u128 {
        Duration::new(u64::MAX, 999_999_999)
    } else {
        Duration::new(secs as u64, subsec as u32)
    }
}

/// Schedules adjusted-thumbnail regeneration after edits, shared by the
/// editor and the thumbnail workers.
pub struct AdjustedThumbnailManager {
    state: Monitor<GuardedQueue>,
    origin: Instant,
}

impl AdjustedThumbnailManager {
    /// A manager with nothing queued; the editor counts as active now.
    pub fn new() -> Arc<Self> {
        Arc::new(
            AdjustedThumbnailManager {
                state: Monitor::new(GuardedQueue { queue: AdjustedThumbnailQueueState::new(0) }),
                origin: Instant::now(),
            },
        )
    }

    /// Nanoseconds since the manager was created.
    fn now(&self) -> (t: u128)
        ensures
            t <= MAX_DURATION_NANOS,
    {
        let elapsed = self.origin.elapsed();
        elapsed.as_nanos()
    }

    /// Records a save of `path`: supersedes its earlier thumbnail work and
    /// arms a job for after the idle delay.
    pub fn schedule(&self, path: String) {
        let mut guard = self.state.lock();
        let now = self.now();
        guard.value().schedule(path, now);
        self.state.notify_one();
    }

    /// Supersedes the thumbnail work of `path` without arming a job yet;
    /// returns the token to arm it with once the save has been persisted.
    pub fn invalidate(&self, path: &str) -> ThumbnailRevision {
        let mut guard = self.state.lock();
        let token = guard.value().invalidate(path);
        self.state.notify_all();
        token
    }

    /// Arms the job of `path` for after the idle delay, unless `token` has
    /// been superseded meanwhile.
    pub fn arm_deferred(&self, path: String, token: ThumbnailRevision) {
        let mut guard = self.state.lock();
        let now = self.now();
        guard.value().arm_deferred(path, token, now);
        self.state.notify_one();
    }

    /// Records editor activity, which postpones all thumbnail work.
    pub fn note_editor_activity(&self) {
        let mut guard = self.state.lock();
        let now = self.now();
        guard.value().note_editor_activity(now);
        self.state.notify_all();
    }

    /// One round of waiting for work, decided by
    /// `AdjustedThumbnailQueueState::poll` on the shared queue: takes the job
    /// that can be handed out now, if any; otherwise sleeps until the next
    /// job could be ready (or until woken) and returns `None`.
    pub fn wait_step(&self) -> Option<AdjustedThumbnailJob> {
        let mut guard = self.state.lock();
        let now = self.now();
        match guard.value().poll(now) {
            ReadyStep::Run(job) => Some(job),
            ReadyStep::Sleep(nanos) => {
                let _guard = guard.wait_timeout(duration_from_nanos(nanos));
                None
            },
            ReadyStep::Idle => {
                let _guard = guard.wait();
                None
            },
        }
    }

    /// Whether `job` still renders the latest save of its path.
    pub fn is_current(&self, job: &AdjustedThumbnailJob) -> bool {
        let mut guard = self.state.lock();
        guard.value().is_current(job)
    }

    /// The token that is current for `path` now.
    pub fn snapshot_revision(&self, path: &str) -> ThumbnailRevision {
        let mut guard = self.state.lock();
        guard.value().snapshot(path)
    }

    /// Whether `revision` is still the current token of `path`.
    pub fn revision_is_current(&self, path: &str, revision: ThumbnailRevision) -> bool {
        let mut guard = self.state.lock();
        guard.value().revision_is_current(path, revision)
    }

    /// Puts `job` back to run after `delay`, unless it has been superseded.
    pub fn requeue(&self, job: &AdjustedThumbnailJob, delay: Duration) {
        let mut guard = self.state.lock();
        let now = self.now();
        let delay_nanos = delay.as_nanos();
        guard.value().requeue(job, now, delay_nanos);
        self.state.notify_one();
    }

    /// Cancels all thumbnail work: every job and token becomes stale.
    pub fn cancel_all(&self) {
        let mut guard = self.state.lock();
        guard.value().cancel_all();
        self.state.notify_all();
    }
}

} // verus!
