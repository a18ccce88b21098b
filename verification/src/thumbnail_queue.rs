//! The adjusted-thumbnail queue: which edited images need a fresh thumbnail,
//! when that work may run, and which results are still current.
//!
//! Each save of a path bumps its revision and (re)arms a deferred job that
//! becomes ready after an idle delay; editor activity postpones all jobs; of
//! the ready jobs the most recently armed runs first; a revision token tells
//! whether a result still reflects the latest save. Cancelling everything
//! starts a new epoch, so every token handed out before goes stale.
//!
//! Times are nanoseconds since an origin chosen by the caller.
use crate::keyed::PathMap;
use vstd::prelude::*;

verus! {

/// Quiet time after a save, and after editor activity, before a thumbnail
/// is regenerated (1.5 s).
pub const ADJUSTED_THUMBNAIL_IDLE_DELAY_NANOS: u128 = 1_500_000_000;

/// The longest duration there is (`Duration::MAX`), in nanoseconds: the
/// bound on times and delays handed to the queue.
pub const MAX_DURATION_NANOS: u128 = 18_446_744_073_709_551_615_999_999_999;

/// The state of a path's thumbnail: the cancellation epoch and the path's
/// save revision when the token was taken.
#[derive(Clone, Copy, Debug, PartialEq, Eq, Structural)]
pub struct ThumbnailRevision {
    epoch: u64,
    revision: u64,
}

/// The token for `revision` within `epoch`.
pub closed spec fn revision_token(epoch: u64, revision: u64) -> ThumbnailRevision {
    ThumbnailRevision { epoch, revision }
}

impl ThumbnailRevision {
    /// The epoch the token belongs to.
    pub closed spec fn epoch_spec(self) -> u64 {
        self.epoch
    }

    /// The save revision the token names.
    pub closed spec fn revision_spec(self) -> u64 {
        self.revision
    }

    /// A token is made of its epoch and its revision, and nothing else: two
    /// tokens are equal exactly when both agree.
    pub proof fn lemma_parts(self)
        ensures
            self == revision_token(self.epoch_spec(), self.revision_spec()),
    {
    }
}

/// The token for `revision` within `epoch` has that epoch and that
/// revision; so tokens of different epochs or revisions differ.
pub proof fn lemma_revision_token(epoch: u64, revision: u64)
    ensures
        revision_token(epoch, revision).epoch_spec() == epoch,
        revision_token(epoch, revision).revision_spec() == revision,
{
}

/// A deferred thumbnail job waiting in the queue.
#[derive(Clone, Copy)]
pub struct PendingAdjustedThumbnail {
    /// When the job may run.
    pub ready_at: u128,
    /// The revision it was armed for.
    pub token: ThumbnailRevision,
    /// Arming order: higher means armed later.
    pub sequence: u64,
}

/// A thumbnail job handed to a worker.
#[derive(Clone, Debug, PartialEq, Eq)]
pub struct AdjustedThumbnailJob {
    path: String,
    token: ThumbnailRevision,
    sequence: u64,
}

impl AdjustedThumbnailJob {
    /// The path of the job.
    pub closed spec fn path_spec(self) -> Seq<char> {
        self.path@
    }

    /// The revision the job renders.
    pub closed spec fn token_spec(self) -> ThumbnailRevision {
        self.token
    }

    /// The arming order of the job.
    pub closed spec fn sequence_spec(self) -> u64 {
        self.sequence
    }

    /// The path of the image whose thumbnail this job renders.
    pub fn path(&self) -> (p: &str)
        ensures
            p@ == self.path_spec(),
    {
        self.path.as_str()
    }
}

/// The queue's abstract state.
pub struct QueueModel {
    /// Armed jobs by path.
    pub pending: Map<Seq<char>, PendingAdjustedThumbnail>,
    /// Latest save revision by path (a missing path is at revision 0).
    pub latest_revision: Map<Seq<char>, u64>,
    /// Cancellation epoch.
    pub epoch: u64,
    /// Last time the editor was active.
    pub last_editor_activity: u128,
    /// Arming counter.
    pub next_sequence: u64,
}

/// `x + 1`, wrapping to 0 after `u64::MAX`.
pub open spec fn successor(x: u64) -> u64 {
    if x == u64::MAX {
        0
    } else {
        (x + 1) as u64
    }
}

/// The latest save revision of `path`.
pub open spec fn latest_of(m: QueueModel, path: Seq<char>) -> u64 {
    if m.latest_revision.contains_key(path) {
        m.latest_revision[path]
    } else {
        0
    }
}

/// The token that is current for `path`.
pub open spec fn snapshot_of(m: QueueModel, path: Seq<char>) -> ThumbnailRevision {
    revision_token(m.epoch, latest_of(m, path))
}

/// Every armed job carries the token that is current for its path.
pub open spec fn pending_tokens_current(m: QueueModel) -> bool {
    forall|p: Seq<char>| #[trigger]
        m.pending.contains_key(p) ==> m.pending[p].token == snapshot_of(m, p)
}

/// The state after a save of `path` was announced: its revision moves on
/// and its armed job, if any, is dropped.
pub open spec fn invalidated(m: QueueModel, path: Seq<char>) -> QueueModel {
    QueueModel {
        pending: m.pending.remove(path),
        latest_revision: m.latest_revision.insert(path, successor(latest_of(m, path))),
        epoch: m.epoch,
        last_editor_activity: m.last_editor_activity,
        next_sequence: m.next_sequence,
    }
}

/// The state after arming a job for `path` with `token` at `now`: nothing
/// changes unless `token` is current; then the job is (re)armed to become
/// ready after the idle delay, with the next arming number.
pub open spec fn armed(m: QueueModel, path: Seq<char>, token: ThumbnailRevision, now: u128) -> QueueModel {
    if snapshot_of(m, path) != token {
        m
    } else {
        QueueModel {
            pending: m.pending.insert(
                path,
                PendingAdjustedThumbnail {
                    ready_at: (now + ADJUSTED_THUMBNAIL_IDLE_DELAY_NANOS) as u128,
                    token,
                    sequence: successor(m.next_sequence),
                },
            ),
            latest_revision: m.latest_revision,
            epoch: m.epoch,
            last_editor_activity: m.last_editor_activity,
            next_sequence: successor(m.next_sequence),
        }
    }
}

/// The state after a save of `path` at `now`: invalidate, then arm.
pub open spec fn scheduled(m: QueueModel, path: Seq<char>, now: u128) -> QueueModel {
    armed(invalidated(m, path), path, snapshot_of(invalidated(m, path), path), now)
}

/// The state after cancelling everything: a new epoch, nothing armed, every
/// path back at revision 0.
pub open spec fn cancelled(m: QueueModel) -> QueueModel {
    QueueModel {
        pending: Map::empty(),
        latest_revision: Map::empty(),
        epoch: successor(m.epoch),
        last_editor_activity: m.last_editor_activity,
        next_sequence: m.next_sequence,
    }
}

/// The same state without the armed job of `path`.
pub open spec fn without_pending(m: QueueModel, path: Seq<char>) -> QueueModel {
    QueueModel {
        pending: m.pending.remove(path),
        latest_revision: m.latest_revision,
        epoch: m.epoch,
        last_editor_activity: m.last_editor_activity,
        next_sequence: m.next_sequence,
    }
}

/// The editor has been quiet for the idle delay at `now`.
pub open spec fn editor_idle(m: QueueModel, now: u128) -> bool {
    now >= m.last_editor_activity + ADJUSTED_THUMBNAIL_IDLE_DELAY_NANOS
}

/// `path` has an armed job that is ready at `now`.
pub open spec fn is_ready(m: QueueModel, path: Seq<char>, now: u128) -> bool {
    m.pending.contains_key(path) && m.pending[path].ready_at <= now
}

/// Of the jobs ready at `now`, the one of `path` was armed last.
pub open spec fn newest_ready(m: QueueModel, path: Seq<char>, now: u128) -> bool {
    &&& is_ready(m, path, now)
    &&& forall|q: Seq<char>| #[trigger]
        is_ready(m, q, now) ==> m.pending[q].sequence <= m.pending[path].sequence
}

/// How long from `now` until `at` (zero once it has passed).
pub open spec fn wait_until(at: int, now: int) -> int {
    if at > now {
        at - now
    } else {
        0
    }
}

/// Nothing can be handed out at `now`: the editor is not idle yet, or no
/// armed job is ready.
pub open spec fn nothing_ready(m: QueueModel, now: u128) -> bool {
    !editor_idle(m, now) || forall|p: Seq<char>| !#[trigger] is_ready(m, p, now)
}

/// Handing out `job` at `now` takes `m` to `after`: the editor is idle, of
/// the ready jobs the job's path was armed last, the job carries that armed
/// job's token and arming number, and it leaves the queue.
pub open spec fn hands_out(m: QueueModel, now: u128, job: AdjustedThumbnailJob, after: QueueModel) -> bool {
    &&& editor_idle(m, now)
    &&& newest_ready(m, job.path_spec(), now)
    &&& job.token_spec() == m.pending[job.path_spec()].token
    &&& job.sequence_spec() == m.pending[job.path_spec()].sequence
    &&& after == without_pending(m, job.path_spec())
}

/// `d` is how long from `now` a worker sleeps before a job could become
/// runnable: until the earliest armed job is ready and the editor is idle.
pub open spec fn sleep_for(m: QueueModel, now: u128, d: u128) -> bool {
    exists|p: Seq<char>|
        {
            &&& #[trigger] m.pending.contains_key(p)
            &&& forall|q: Seq<char>| #[trigger]
                m.pending.contains_key(q) ==> m.pending[p].ready_at <= m.pending[q].ready_at
            &&& d == wait_until(
                if m.pending[p].ready_at > m.last_editor_activity + ADJUSTED_THUMBNAIL_IDLE_DELAY_NANOS {
                    m.pending[p].ready_at as int
                } else {
                    m.last_editor_activity + ADJUSTED_THUMBNAIL_IDLE_DELAY_NANOS
                },
                now as int,
            )
        }
}

/// What a worker does at one look at the queue.
#[derive(Debug, PartialEq, Eq)]
pub enum ReadyStep {
    /// Run this job, which has left the queue.
    Run(AdjustedThumbnailJob),
    /// Nothing to run yet; sleep this many nanoseconds (or until woken).
    Sleep(u128),
    /// Nothing is armed; sleep until woken.
    Idle,
}

/// The state after a job for `path` is put back to run at `ready_at`,
/// provided its token is still current.
pub open spec fn requeued(
    m: QueueModel,
    path: Seq<char>,
    token: ThumbnailRevision,
    sequence: u64,
    ready_at: u128,
) -> QueueModel {
    if snapshot_of(m, path) != token {
        m
    } else {
        QueueModel {
            pending: m.pending.insert(path, PendingAdjustedThumbnail { ready_at, token, sequence }),
            latest_revision: m.latest_revision,
            epoch: m.epoch,
            last_editor_activity: m.last_editor_activity,
            next_sequence: m.next_sequence,
        }
    }
}

/// Deferred thumbnail jobs and the revision of every saved path.
pub struct AdjustedThumbnailQueueState {
    pending: PathMap<PendingAdjustedThumbnail>,
    latest_revision: PathMap<u64>,
    epoch: u64,
    last_editor_activity: u128,
    next_sequence: u64,
}

impl View for AdjustedThumbnailQueueState {
    type V = QueueModel;

    closed spec fn view(&self) -> QueueModel {
        QueueModel {
            pending: self.pending@,
            latest_revision: self.latest_revision@,
            epoch: self.epoch,
            last_editor_activity: self.last_editor_activity,
            next_sequence: self.next_sequence,
        }
    }
}

impl AdjustedThumbnailQueueState {
    /// The maps are well formed, armed jobs are current, and the last editor
    /// activity is a valid time.
    pub closed spec fn wf(self) -> bool {
        &&& self.pending.wf()
        &&& self.latest_revision.wf()
        &&& pending_tokens_current(self@)
        &&& self.last_editor_activity <= MAX_DURATION_NANOS
    }

    /// An empty queue whose editor was last active at `now`.
    pub fn new(now: u128) -> (s: Self)
        requires
            now <= MAX_DURATION_NANOS,
        ensures
            s.wf(),
            s@ == (QueueModel {
                pending: Map::empty(),
                latest_revision: Map::empty(),
                epoch: 0,
                last_editor_activity: now,
                next_sequence: 0,
            }),
    {
        AdjustedThumbnailQueueState {
            pending: PathMap::new(),
            latest_revision: PathMap::new(),
            epoch: 0,
            last_editor_activity: now,
            next_sequence: 0,
        }
    }

    fn latest_for(&self, key: &String) -> (r: u64)
        requires
            self.wf(),
        ensures
            r == latest_of(self@, key@),
    {
        match self.latest_revision.get(key) {
            Some(r) => r,
            None => 0,
        }
    }

    /// The token that is current for `path`.
    pub fn snapshot(&self, path: &str) -> (t: ThumbnailRevision)
        requires
            self.wf(),
        ensures
            t == snapshot_of(self@, path@),
    {
        let key = path.to_owned();
        ThumbnailRevision { epoch: self.epoch, revision: self.latest_for(&key) }
    }

    /// Announces a save of `path`: its revision moves on, its armed job is
    /// dropped, and the new current token is returned.
    pub fn invalidate(&mut self, path: &str) -> (t: ThumbnailRevision)
        requires
            old(self).wf(),
        ensures
            final(self).wf(),
            final(self)@ == invalidated(old(self)@, path@),
            t == snapshot_of(final(self)@, path@),
    {
        let ghost before = self@;
        let key = path.to_owned();
        let revision = self.latest_for(&key).wrapping_add(1);
        self.latest_revision.insert(key, revision);
        let key = path.to_owned();
        self.pending.remove(&key);
        proof {
            let m = self@;
            assert forall|p: Seq<char>| #[trigger] m.pending.contains_key(p) implies m.pending[p].token
                == snapshot_of(m, p) by {
                assert(p != path@);
                assert(before.pending.contains_key(p));
                assert(latest_of(m, p) == latest_of(before, p));
            }
        }
        ThumbnailRevision { epoch: self.epoch, revision }
    }

    /// Arms a deferred job for `path` that becomes ready one idle delay
    /// after `now`, unless `token` is no longer current.
    pub fn arm_deferred(&mut self, path: String, token: ThumbnailRevision, now: u128)
        requires
            old(self).wf(),
            now <= MAX_DURATION_NANOS,
        ensures
            final(self).wf(),
            final(self)@ == armed(old(self)@, path@, token, now),
    {
        let current = self.snapshot(path.as_str());
        if current != token {
            return;
        }
        self.next_sequence = self.next_sequence.wrapping_add(1);
        let entry = PendingAdjustedThumbnail {
            ready_at: now + ADJUSTED_THUMBNAIL_IDLE_DELAY_NANOS,
            token,
            sequence: self.next_sequence,
        };
        let ghost before = self@;
        let ghost k = path@;
        self.pending.insert(path, entry);
        proof {
            let m = self@;
            assert forall|p: Seq<char>| #[trigger] m.pending.contains_key(p) implies m.pending[p].token
                == snapshot_of(m, p) by {
                assert(m.latest_revision == old(self)@.latest_revision);
                assert(m.epoch == old(self)@.epoch);
                if p != k {
                    assert(old(self)@.pending.contains_key(p));
                    assert(old(self)@.pending[p] == m.pending[p]);
                } else {
                    assert(m.pending[p].token == token);
                }
            }
        }
    }

    /// Announces a save of `path` at `now` and arms its deferred job;
    /// returns the new current token.
    pub fn schedule(&mut self, path: String, now: u128) -> (t: ThumbnailRevision)
        requires
            old(self).wf(),
            now <= MAX_DURATION_NANOS,
        ensures
            final(self).wf(),
            final(self)@ == scheduled(old(self)@, path@, now),
            t == snapshot_of(invalidated(old(self)@, path@), path@),
    {
        let token = self.invalidate(path.as_str());
        self.arm_deferred(path, token, now);
        token
    }

    /// Records editor activity at `now`, which postpones all thumbnail work.
    pub fn note_editor_activity(&mut self, now: u128)
        requires
            old(self).wf(),
            now <= MAX_DURATION_NANOS,
        ensures
            final(self).wf(),
            final(self)@ == (QueueModel { last_editor_activity: now, ..old(self)@ }),
    {
        self.last_editor_activity = now;
    }

    /// Takes the job to run at `now`: none while the editor is not yet idle;
    /// otherwise, of the jobs that are ready, the one armed last.
    pub fn take_ready(&mut self, now: u128) -> (r: Option<AdjustedThumbnailJob>)
        requires
            old(self).wf(),
        ensures
            final(self).wf(),
            match r {
                None => final(self)@ == old(self)@ && nothing_ready(old(self)@, now),
                Some(job) => {
                    &&& hands_out(old(self)@, now, job, final(self)@)
                    &&& job.token_spec() == snapshot_of(final(self)@, job.path_spec())
                },
            },
    {
        if now < self.last_editor_activity + ADJUSTED_THUMBNAIL_IDLE_DELAY_NANOS {
            return None;
        }
        let ghost m = self@;
        let count = self.pending.len();
        let mut best: Option<usize> = None;
        let mut i: usize = 0;
        while i < count
            invariant
                i <= count,
                count == self.pending.count(),
                self.pending.wf(),
                match best {
                    Some(b) => {
                        &&& b < i
                        &&& self.pending.value_at_spec(b as int).ready_at <= now
                        &&& forall|j: int|
                            0 <= j < i && #[trigger] self.pending.value_at_spec(j).ready_at <= now
                                ==> self.pending.value_at_spec(j).sequence
                                <= self.pending.value_at_spec(b as int).sequence
                    },
                    None => forall|j: int|
                        0 <= j < i ==> #[trigger] self.pending.value_at_spec(j).ready_at > now,
                },
            decreases count - i,
        {
            let entry = self.pending.value_at(i);
            if entry.ready_at <= now {
                match best {
                    None => {
                        best = Some(i);
                    },
                    Some(b) => {
                        if entry.sequence >= self.pending.value_at(b).sequence {
                            best = Some(i);
                        }
                    },
                }
            }
            i = i + 1;
        }
        match best {
            None => {
                proof {
                    assert forall|p: Seq<char>| !#[trigger] is_ready(m, p, now) by {
                        if m.pending.contains_key(p) {
                            let j = self.pending.lemma_key(p);
                            self.pending.lemma_entry(j);
                        }
                    }
                }
                None
            },
            Some(b) => {
                let path = self.pending.key_at(b).clone();
                let entry = self.pending.value_at(b);
                proof {
                    self.pending.lemma_entry(b as int);
                    assert forall|q: Seq<char>| #[trigger] is_ready(m, q, now) implies m.pending[q].sequence
                        <= m.pending[path@].sequence by {
                        let j = self.pending.lemma_key(q);
                        self.pending.lemma_entry(j);
                    }
                }
                self.pending.remove(&path);
                proof {
                    let after = self@;
                    assert forall|p: Seq<char>| #[trigger]
                        after.pending.contains_key(p) implies after.pending[p].token == snapshot_of(
                        after,
                        p,
                    ) by {
                        assert(m.pending.contains_key(p));
                    }
                    assert(after == without_pending(m, path@));
                }
                Some(AdjustedThumbnailJob { path, token: entry.token, sequence: entry.sequence })
            },
        }
    }

    /// How long from `now` until a job could next become runnable: until the
    /// earliest armed job is ready and the editor is idle; `None` when
    /// nothing is armed.
    pub fn wait_duration(&self, now: u128) -> (r: Option<u128>)
        requires
            self.wf(),
        ensures
            match r {
                None => self@.pending == Map::<Seq<char>, PendingAdjustedThumbnail>::empty(),
                Some(d) => sleep_for(self@, now, d),
            },
    {
        let count = self.pending.len();
        if count == 0 {
            proof {
                self.pending.lemma_len();
                assert(self.pending@.dom() =~= Set::<Seq<char>>::empty());
                assert(self.pending@ =~= Map::<Seq<char>, PendingAdjustedThumbnail>::empty());
            }
            return None;
        }
        let mut earliest: usize = 0;
        let mut i: usize = 1;
        while i < count
            invariant
                1 <= i <= count,
                count == self.pending.count(),
                earliest < i,
                forall|j: int|
                    0 <= j < i ==> self.pending.value_at_spec(earliest as int).ready_at
                        <= #[trigger] self.pending.value_at_spec(j).ready_at,
            decreases count - i,
        {
            if self.pending.value_at(i).ready_at < self.pending.value_at(earliest).ready_at {
                earliest = i;
            }
            i = i + 1;
        }
        let earliest_job = self.pending.value_at(earliest).ready_at;
        let editor_idle_at = self.last_editor_activity + ADJUSTED_THUMBNAIL_IDLE_DELAY_NANOS;
        let wake_at = if earliest_job > editor_idle_at {
            earliest_job
        } else {
            editor_idle_at
        };
        let wait = if wake_at > now {
            wake_at - now
        } else {
            0
        };
        proof {
            let p = self.pending.key_at_spec(earliest as int);
            self.pending.lemma_entry(earliest as int);
            assert forall|q: Seq<char>| #[trigger]
                self@.pending.contains_key(q) implies self@.pending[p].ready_at
                <= self@.pending[q].ready_at by {
                let j = self.pending.lemma_key(q);
                self.pending.lemma_entry(j);
            }
            assert(self@.pending.contains_key(p));
        }
        Some(wait)
    }

    /// One look of a worker at the queue at `now`: the job to run, if one
    /// can be handed out; otherwise how long to sleep, or to sleep until
    /// woken when nothing is armed. Only handing out a job changes the
    /// queue, and a job handed out is current.
    pub fn poll(&mut self, now: u128) -> (r: ReadyStep)
        requires
            old(self).wf(),
        ensures
            final(self).wf(),
            match r {
                ReadyStep::Run(job) => {
                    &&& hands_out(old(self)@, now, job, final(self)@)
                    &&& job.token_spec() == snapshot_of(final(self)@, job.path_spec())
                },
                ReadyStep::Sleep(d) => {
                    &&& final(self)@ == old(self)@
                    &&& nothing_ready(old(self)@, now)
                    &&& sleep_for(old(self)@, now, d)
                },
                ReadyStep::Idle => {
                    &&& final(self)@ == old(self)@
                    &&& old(self)@.pending == Map::<Seq<char>, PendingAdjustedThumbnail>::empty()
                },
            },
    {
        match self.take_ready(now) {
            Some(job) => ReadyStep::Run(job),
            None => match self.wait_duration(now) {
                Some(d) => ReadyStep::Sleep(d),
                None => ReadyStep::Idle,
            },
        }
    }

    /// In a well-formed queue every armed job carries the token that is
    /// current for its path.
    pub proof fn lemma_armed_jobs_current(&self)
        requires
            self.wf(),
        ensures
            pending_tokens_current(self@),
    {
    }

    /// Whether `revision` is still the current token of `path`.
    pub fn revision_is_current(&self, path: &str, revision: ThumbnailRevision) -> (b: bool)
        requires
            self.wf(),
        ensures
            b == (snapshot_of(self@, path@) == revision),
    {
        self.snapshot(path) == revision
    }

    /// Whether `job` still renders the current revision of its path.
    pub fn is_current(&self, job: &AdjustedThumbnailJob) -> (b: bool)
        requires
            self.wf(),
        ensures
            b == (snapshot_of(self@, job.path_spec()) == job.token_spec()),
    {
        self.snapshot(job.path.as_str()) == job.token
    }

    /// Puts `job` back, to become ready `delay` after `now`, unless a newer
    /// save or a cancellation has made it stale.
    pub fn requeue(&mut self, job: &AdjustedThumbnailJob, now: u128, delay: u128)
        requires
            old(self).wf(),
            now <= MAX_DURATION_NANOS,
            delay <= MAX_DURATION_NANOS,
        ensures
            final(self).wf(),
            final(self)@ == requeued(
                old(self)@,
                job.path_spec(),
                job.token_spec(),
                job.sequence_spec(),
                (now + delay) as u128,
            ),
    {
        if self.is_current(job) {
            let entry = PendingAdjustedThumbnail {
                ready_at: now + delay,
                token: job.token,
                sequence: job.sequence,
            };
            let ghost before = self@;
            let ghost k = job.path@;
            self.pending.insert(job.path.clone(), entry);
            proof {
                let m = self@;
                assert forall|p: Seq<char>| #[trigger] m.pending.contains_key(p) implies m.pending[p].token
                    == snapshot_of(m, p) by {
                    if p != k {
                        assert(before.pending.contains_key(p));
                    }
                }
            }
        }
    }

    /// Cancels all thumbnail work: starts a new epoch and forgets every armed
    /// job and every revision, so that every token taken before is stale.
    pub fn cancel_all(&mut self)
        requires
            old(self).wf(),
        ensures
            final(self).wf(),
            final(self)@ == cancelled(old(self)@),
    {
        self.epoch = self.epoch.wrapping_add(1);
        self.pending.clear();
        self.latest_revision.clear();
    }

    /// Number of armed jobs.
    pub fn pending_len(&self) -> (n: usize)
        requires
            self.wf(),
        ensures
            n == self@.pending.len(),
    {
        self.pending.len()
    }
}

/// Saves coalesce by path: scheduling `path` leaves exactly the paths that
/// were armed, plus `path`, armed.
pub proof fn law_schedule_coalesces_by_path(m: QueueModel, path: Seq<char>, now: u128)
    ensures
        scheduled(m, path, now).pending.dom() == m.pending.dom().insert(path),
{
    assert(scheduled(m, path, now).pending.dom() =~= m.pending.dom().insert(path));
}

/// A save supersedes the token that was current for its path, both when it
/// is only announced and when it is scheduled.
pub proof fn law_save_supersedes_current_token(m: QueueModel, path: Seq<char>, now: u128)
    ensures
        snapshot_of(invalidated(m, path), path) != snapshot_of(m, path),
        snapshot_of(scheduled(m, path, now), path) != snapshot_of(m, path),
{
}

/// Revisions of different paths (such as an image and its virtual copy)
/// are independent: a save of one leaves the other's token current.
pub proof fn law_revisions_are_independent(
    m: QueueModel,
    path: Seq<char>,
    other: Seq<char>,
    now: u128,
)
    requires
        other != path,
    ensures
        snapshot_of(invalidated(m, path), other) == snapshot_of(m, other),
        snapshot_of(scheduled(m, path, now), other) == snapshot_of(m, other),
{
}

/// Every token the queue hands out (by a snapshot, an announced or
/// scheduled save, or with a job) belongs to the queue's epoch at that
/// moment; only cancelling moves the epoch on, by one.
pub proof fn law_tokens_carry_the_current_epoch(
    m: QueueModel,
    path: Seq<char>,
    token: ThumbnailRevision,
    sequence: u64,
    now: u128,
)
    ensures
        snapshot_of(m, path).epoch_spec() == m.epoch,
        invalidated(m, path).epoch == m.epoch,
        armed(m, path, token, now).epoch == m.epoch,
        scheduled(m, path, now).epoch == m.epoch,
        without_pending(m, path).epoch == m.epoch,
        requeued(m, path, token, sequence, now).epoch == m.epoch,
        cancelled(m).epoch == successor(m.epoch),
{
}

/// Cancelling everything leaves nothing armed, forgets every revision, and
/// makes every token taken before it stale, for every path, saved or not:
/// every token of an epoch up to the current one, unless the epoch counter
/// wraps around to an old epoch.
pub proof fn law_cancel_all_invalidates_every_token(
    m: QueueModel,
    path: Seq<char>,
    token: ThumbnailRevision,
)
    requires
        token.epoch_spec() <= m.epoch,
        token.epoch_spec() == m.epoch || m.epoch < u64::MAX,
    ensures
        snapshot_of(cancelled(m), path) != token,
        cancelled(m).pending.dom().len() == 0,
        cancelled(m).latest_revision.dom().len() == 0,
{
    assert(cancelled(m).pending.dom() =~= Set::<Seq<char>>::empty());
    assert(cancelled(m).latest_revision.dom() =~= Set::<Seq<char>>::empty());
}

/// A job taken from the queue renders the current revision of its path:
/// armed jobs always carry their path's current token.
pub proof fn law_taken_job_is_current(m: QueueModel, path: Seq<char>)
    requires
        pending_tokens_current(m),
        m.pending.contains_key(path),
    ensures
        snapshot_of(without_pending(m, path), path) == m.pending[path].token,
{
}

/// A newer save makes an in-flight job stale: once a job has been handed
/// out it carries its path's current token, and announcing or scheduling
/// another save of that path moves the path's token away from the job's.
pub proof fn law_newer_save_makes_inflight_job_stale(
    m: QueueModel,
    now: u128,
    job: AdjustedThumbnailJob,
    after: QueueModel,
    later: u128,
)
    requires
        pending_tokens_current(m),
        hands_out(m, now, job, after),
    ensures
        snapshot_of(after, job.path_spec()) == job.token_spec(),
        snapshot_of(invalidated(after, job.path_spec()), job.path_spec()) != job.token_spec(),
        snapshot_of(scheduled(after, job.path_spec(), later), job.path_spec())
            != job.token_spec(),
{
}

/// Every queue operation keeps armed jobs current.
pub proof fn law_operations_keep_armed_jobs_current(
    m: QueueModel,
    path: Seq<char>,
    token: ThumbnailRevision,
    sequence: u64,
    now: u128,
)
    requires
        pending_tokens_current(m),
    ensures
        pending_tokens_current(invalidated(m, path)),
        pending_tokens_current(armed(m, path, token, now)),
        pending_tokens_current(scheduled(m, path, now)),
        pending_tokens_current(without_pending(m, path)),
        pending_tokens_current(requeued(m, path, token, sequence, now)),
        pending_tokens_current(cancelled(m)),
{
    let i = invalidated(m, path);
    assert forall|p: Seq<char>| #[trigger] i.pending.contains_key(p) implies i.pending[p].token
        == snapshot_of(i, p) by {
        assert(m.pending.contains_key(p));
    }
    assert forall|mm: QueueModel| pending_tokens_current(mm) implies #[trigger] pending_tokens_current(
        armed(mm, path, token, now),
    ) by {
        let a = armed(mm, path, token, now);
        assert forall|p: Seq<char>| #[trigger] a.pending.contains_key(p) implies a.pending[p].token
            == snapshot_of(a, p) by {
            if p != path && snapshot_of(mm, path) == token {
                assert(mm.pending.contains_key(p));
            }
        }
    }
    let r = requeued(m, path, token, sequence, now);
    assert forall|p: Seq<char>| #[trigger] r.pending.contains_key(p) implies r.pending[p].token
        == snapshot_of(r, p) by {
        if p != path && snapshot_of(m, path) == token {
            assert(m.pending.contains_key(p));
        }
    }
    let w = without_pending(m, path);
    assert forall|p: Seq<char>| #[trigger] w.pending.contains_key(p) implies w.pending[p].token
        == snapshot_of(w, p) by {
        assert(m.pending.contains_key(p));
    }
}

/// Editor activity postpones thumbnail work: for one idle delay after the
/// editor was last active, no job is handed out, however long it has been
/// ready; armed jobs and tokens are left as they were.
pub proof fn law_editor_activity_postpones_work(m: QueueModel, active_at: u128, now: u128)
    requires
        now < active_at + ADJUSTED_THUMBNAIL_IDLE_DELAY_NANOS,
    ensures
        !editor_idle(QueueModel { last_editor_activity: active_at, ..m }, now),
        nothing_ready(QueueModel { last_editor_activity: active_at, ..m }, now),
        (QueueModel { last_editor_activity: active_at, ..m }).pending == m.pending,
        forall|p: Seq<char>|
            #[trigger] snapshot_of(QueueModel { last_editor_activity: active_at, ..m }, p)
                == snapshot_of(m, p),
{
}

} // verus!
