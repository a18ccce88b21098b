//! Admission to the GPU: one piece of work at a time, and waiting work of a
//! higher priority goes first.
pub use crate::gpu_scheduler::GpuWorkScheduler;
use vstd::prelude::*;

verus! {

/// Number of priorities.
pub const GPU_WORK_PRIORITY_COUNT: usize = 5;

/// Kinds of GPU work, from least to most urgent.
#[derive(Clone, Copy, Debug, PartialEq, Eq, PartialOrd, Ord)]
pub enum GpuWorkPriority {
    Export,
    Background,
    VisibleThumbnail,
    SelectedThumbnail,
    Interactive,
}

impl GpuWorkPriority {
    /// Position in the order of urgency, from 0 (`Export`) to 4 (`Interactive`).
    pub open spec fn rank(self) -> int {
        match self {
            GpuWorkPriority::Export => 0,
            GpuWorkPriority::Background => 1,
            GpuWorkPriority::VisibleThumbnail => 2,
            GpuWorkPriority::SelectedThumbnail => 3,
            GpuWorkPriority::Interactive => 4,
        }
    }

    /// Position in the order of urgency.
    pub fn index(self) -> (i: usize)
        ensures
            i == self.rank(),
    {
        match self {
            GpuWorkPriority::Export => 0,
            GpuWorkPriority::Background => 1,
            GpuWorkPriority::VisibleThumbnail => 2,
            GpuWorkPriority::SelectedThumbnail => 3,
            GpuWorkPriority::Interactive => 4,
        }
    }
}

/// The admission state: whether a permit is out, and how many tickets wait
/// at each priority.
pub struct GpuQueueModel {
    pub active: bool,
    pub waiting: Seq<usize>,
}

/// No ticket of a priority above `rank` is waiting.
pub open spec fn no_higher_waiting(m: GpuQueueModel, rank: int) -> bool {
    forall|q: int| rank < q < GPU_WORK_PRIORITY_COUNT ==> #[trigger] m.waiting[q] == 0
}

/// Work of priority `p` may start: no permit is out and no more urgent work
/// waits.
pub open spec fn may_acquire(m: GpuQueueModel, p: GpuWorkPriority) -> bool {
    !m.active && no_higher_waiting(m, p.rank())
}

/// A ticket of priority `p` starts waiting.
pub open spec fn enqueued(m: GpuQueueModel, p: GpuWorkPriority) -> GpuQueueModel {
    GpuQueueModel {
        active: m.active,
        waiting: m.waiting.update(p.rank(), (m.waiting[p.rank()] + 1) as usize),
    }
}

/// A waiting ticket of priority `p` leaves without running.
pub open spec fn withdrawn(m: GpuQueueModel, p: GpuWorkPriority) -> GpuQueueModel {
    GpuQueueModel {
        active: m.active,
        waiting: m.waiting.update(p.rank(), (m.waiting[p.rank()] - 1) as usize),
    }
}

/// A waiting ticket of priority `p` becomes the permit.
pub open spec fn granted(m: GpuQueueModel, p: GpuWorkPriority) -> GpuQueueModel {
    GpuQueueModel { active: true, waiting: withdrawn(m, p).waiting }
}

/// The permit is given back.
pub open spec fn released(m: GpuQueueModel) -> GpuQueueModel {
    GpuQueueModel { active: false, waiting: m.waiting }
}

/// The admission state of a GPU work scheduler.
pub struct GpuWorkQueueState {
    active: bool,
    waiting: [usize; 5],
}

impl View for GpuWorkQueueState {
    type V = GpuQueueModel;

    closed spec fn view(&self) -> GpuQueueModel {
        GpuQueueModel { active: self.active, waiting: self.waiting@ }
    }
}

impl GpuWorkQueueState {
    /// No permit out, no ticket waiting.
    pub fn new() -> (s: Self)
        ensures
            s@ == (GpuQueueModel { active: false, waiting: seq![0usize, 0, 0, 0, 0] }),
            s@.waiting.len() == GPU_WORK_PRIORITY_COUNT,
    {
        let s = GpuWorkQueueState { active: false, waiting: [0, 0, 0, 0, 0] };
        assert(s.waiting@ =~= seq![0usize, 0, 0, 0, 0]);
        s
    }

    /// Whether no permit is out.
    pub fn is_idle(&self) -> (b: bool)
        ensures
            b == !self@.active,
    {
        !self.active
    }

    /// Tickets waiting at priority `p`.
    pub fn waiting_at(&self, p: GpuWorkPriority) -> (n: usize)
        ensures
            n == self@.waiting[p.rank()],
    {
        self.waiting[p.index()]
    }

    /// Whether work of priority `p` may start now.
    pub fn can_acquire(&self, priority: GpuWorkPriority) -> (b: bool)
        ensures
            b == may_acquire(self@, priority),
    {
        if self.active {
            return false;
        }
        let mut q = priority.index() + 1;
        while q < GPU_WORK_PRIORITY_COUNT
            invariant
                priority.rank() < q <= GPU_WORK_PRIORITY_COUNT,
                forall|r: int| priority.rank() < r < q ==> #[trigger] self.waiting@[r] == 0,
            decreases GPU_WORK_PRIORITY_COUNT - q,
        {
            if self.waiting[q] != 0 {
                assert(self@.waiting[q as int] != 0);
                return false;
            }
            q = q + 1;
        }
        true
    }

    /// A ticket of priority `p` starts waiting.
    pub fn enqueue(&mut self, p: GpuWorkPriority)
        requires
            old(self)@.waiting[p.rank()] < usize::MAX,
        ensures
            final(self)@ == enqueued(old(self)@, p),
            final(self)@.waiting.len() == GPU_WORK_PRIORITY_COUNT,
    {
        let i = p.index();
        self.waiting[i] = self.waiting[i] + 1;
        assert(self@.waiting =~= enqueued(old(self)@, p).waiting);
    }

    /// A waiting ticket of priority `p` leaves without running.
    pub fn withdraw(&mut self, p: GpuWorkPriority)
        requires
            old(self)@.waiting[p.rank()] > 0,
        ensures
            final(self)@ == withdrawn(old(self)@, p),
            final(self)@.waiting.len() == GPU_WORK_PRIORITY_COUNT,
    {
        let i = p.index();
        self.waiting[i] = self.waiting[i] - 1;
        assert(self@.waiting =~= withdrawn(old(self)@, p).waiting);
    }

    /// A waiting ticket of priority `p`, now admissible, becomes the permit.
    pub fn grant(&mut self, p: GpuWorkPriority)
        requires
            may_acquire(old(self)@, p),
            old(self)@.waiting[p.rank()] > 0,
        ensures
            final(self)@ == granted(old(self)@, p),
            final(self)@.waiting.len() == GPU_WORK_PRIORITY_COUNT,
    {
        self.withdraw(p);
        self.active = true;
    }

    /// The permit is given back.
    pub fn release(&mut self)
        ensures
            final(self)@ == released(old(self)@),
            final(self)@.waiting.len() == GPU_WORK_PRIORITY_COUNT,
    {
        self.active = false;
    }

    /// Every state counts the waiting tickets of each priority.
    pub proof fn lemma_counts(&self)
        ensures
            self@.waiting.len() == GPU_WORK_PRIORITY_COUNT,
    {
    }

    /// Counts a new ticket of priority `p` as waiting; `false`, with nothing
    /// counted, when that count is already at `usize::MAX`.
    pub fn try_enqueue(&mut self, p: GpuWorkPriority) -> (b: bool)
        ensures
            b == (old(self)@.waiting[p.rank()] < usize::MAX),
            final(self)@ == if b {
                enqueued(old(self)@, p)
            } else {
                old(self)@
            },
            final(self)@.waiting.len() == GPU_WORK_PRIORITY_COUNT,
    {
        if self.waiting_at(p) == usize::MAX {
            return false;
        }
        self.enqueue(p);
        true
    }

    /// A waiting ticket of priority `p` leaves without running; `false`,
    /// with nothing changed, when no ticket of that priority waits.
    pub fn try_withdraw(&mut self, p: GpuWorkPriority) -> (b: bool)
        ensures
            b == (old(self)@.waiting[p.rank()] > 0),
            final(self)@ == if b {
                withdrawn(old(self)@, p)
            } else {
                old(self)@
            },
            final(self)@.waiting.len() == GPU_WORK_PRIORITY_COUNT,
    {
        if self.waiting_at(p) == 0 {
            return false;
        }
        self.withdraw(p);
        true
    }

    /// One attempt of a ticket of priority `p` to start: the permit is
    /// granted when the GPU is free, no more urgent ticket waits and a
    /// ticket of `p` is counted; with no such ticket the attempt is not
    /// registered; otherwise the ticket has to wait. Only a grant changes
    /// the state.
    pub fn try_acquire(&mut self, p: GpuWorkPriority) -> (r: GpuAcquireStep)
        ensures
            r is NotRegistered <==> (may_acquire(old(self)@, p) && old(self)@.waiting[p.rank()]
                == 0),
            r is Granted <==> (may_acquire(old(self)@, p) && old(self)@.waiting[p.rank()] > 0),
            r is Waited <==> !may_acquire(old(self)@, p),
            final(self)@ == if r is Granted {
                granted(old(self)@, p)
            } else {
                old(self)@
            },
            final(self)@.waiting.len() == GPU_WORK_PRIORITY_COUNT,
    {
        if !self.can_acquire(p) {
            return GpuAcquireStep::Waited;
        }
        if self.waiting_at(p) == 0 {
            return GpuAcquireStep::NotRegistered;
        }
        self.grant(p);
        GpuAcquireStep::Granted
    }
}

/// One permit at a time: while a permit is out, no work may start.
pub proof fn law_one_permit_at_a_time(m: GpuQueueModel, p: GpuWorkPriority, q: GpuWorkPriority)
    ensures
        !may_acquire(granted(m, p), q),
{
}

/// More urgent waiting work goes first: work may not start while a ticket
/// of a higher priority waits.
pub proof fn law_higher_priority_goes_first(
    m: GpuQueueModel,
    p: GpuWorkPriority,
    higher: GpuWorkPriority,
)
    requires
        m.waiting.len() == GPU_WORK_PRIORITY_COUNT,
        p.rank() < higher.rank(),
        m.waiting[higher.rank()] > 0,
    ensures
        !may_acquire(m, p),
{
}

/// No waiting is in vain: when no permit is out, the most urgent waiting
/// priority may start.
pub proof fn law_most_urgent_waiting_may_start(m: GpuQueueModel, p: GpuWorkPriority)
    requires
        !m.active,
        forall|q: int| p.rank() < q < GPU_WORK_PRIORITY_COUNT ==> #[trigger] m.waiting[q] == 0,
    ensures
        may_acquire(m, p),
{
}

/// A ticket taken and dropped unused leaves the state as it was.
pub proof fn law_unused_ticket_leaves_no_trace(m: GpuQueueModel, p: GpuWorkPriority)
    requires
        m.waiting.len() == GPU_WORK_PRIORITY_COUNT,
        m.waiting[p.rank()] < usize::MAX,
    ensures
        withdrawn(enqueued(m, p), p) == m,
{
    assert(withdrawn(enqueued(m, p), p).waiting =~= m.waiting);
}

/// Work started through a fresh ticket: counting the ticket and then
/// granting it leaves every waiting count as it was, with the GPU busy.
pub proof fn law_ticket_then_grant(m: GpuQueueModel, p: GpuWorkPriority)
    requires
        m.waiting.len() == GPU_WORK_PRIORITY_COUNT,
        m.waiting[p.rank()] < usize::MAX,
    ensures
        granted(enqueued(m, p), p) == (GpuQueueModel { active: true, waiting: m.waiting }),
{
    assert(granted(enqueued(m, p), p).waiting =~= m.waiting);
}

/// Running and finishing leaves the counts as if the ticket had left, and
/// frees the GPU.
pub proof fn law_release_after_grant(m: GpuQueueModel, p: GpuWorkPriority)
    ensures
        released(granted(m, p)) == released(withdrawn(m, p)),
{
}

/// What one attempt to start GPU work came to.
#[derive(Clone, Copy, Debug, PartialEq, Eq)]
pub enum GpuAcquireStep {
    /// The permit was granted.
    Granted,
    /// Other work has precedence, so the ticket waits (the scheduler waits
    /// for a change of the state before it reports this).
    Waited,
    /// No ticket of that priority was waiting.
    NotRegistered,
}

} // verus!
