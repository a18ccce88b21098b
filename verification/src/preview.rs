//! Preview generations: every new preview request takes the next number of
//! a shared counter, and work for an older number is superseded.
use std::sync::atomic::AtomicUsize;
use std::sync::{Arc, Mutex};
use vstd::prelude::*;

verus! {

/// The error with which superseded preview work stops.
pub const PREVIEW_SUPERSEDED: &'static str = "Preview superseded";

/// The number that follows `previous` (wrapping after `usize::MAX`).
pub open spec fn generation_after(previous: usize) -> usize {
    if previous == usize::MAX {
        0
    } else {
        (previous + 1) as usize
    }
}

/// One preview request's place in the sequence of requests.
#[derive(Clone)]
pub struct PreviewGeneration {
    number: usize,
    latest: Arc<AtomicUsize>,
    commit: Arc<Mutex<()>>,
}

impl PreviewGeneration {
    /// This generation's number.
    pub closed spec fn number_spec(self) -> usize {
        self.number
    }

    /// This generation reads the counter of `tracker` and commits frames
    /// under its commit lock.
    pub closed spec fn belongs_to(self, tracker: PreviewGenerationTracker) -> bool {
        self.latest == tracker.latest && self.commit == tracker.commit
    }

    /// This generation's number.
    pub fn number(&self) -> (n: usize)
        ensures
            n == self.number_spec(),
    {
        self.number
    }

    /// Whether this generation is the latest, given the counter's value.
    pub fn is_current_at(&self, latest: usize) -> (b: bool)
        ensures
            b == (latest == self.number_spec()),
    {
        latest == self.number
    }

    /// Whether no newer generation has been handed out since this one: reads
    /// the shared counter, which other threads move on.
    pub fn is_current(&self) -> bool {
        let latest = self.latest.load(std::sync::atomic::Ordering::Acquire);
        self.is_current_at(latest)
    }

    /// `Ok` when this generation is the latest, given the counter's value;
    /// otherwise the superseded error.
    pub fn ensure_current_at(&self, latest: usize) -> (r: Result<(), String>)
        ensures
            (r is Ok) <==> latest == self.number_spec(),
            r matches Err(message) ==> message@ == PREVIEW_SUPERSEDED@,
    {
        if self.is_current_at(latest) {
            Ok(())
        } else {
            Err(PREVIEW_SUPERSEDED.to_owned())
        }
    }

    /// `Ok` while this generation is current, else the superseded error:
    /// reads the shared counter and decides by `ensure_current_at`.
    pub fn ensure_current(&self) -> (r: Result<(), String>)
        ensures
            r matches Err(message) ==> message@ == PREVIEW_SUPERSEDED@,
    {
        let latest = self.latest.load(std::sync::atomic::Ordering::Acquire);
        self.ensure_current_at(latest)
    }

    /// The lock under which frames of this tracker's generations are
    /// committed; holding it holds off new generations of callers that take
    /// it around `PreviewGenerationTracker::next`.
    pub fn commit_lock(&self) -> &Mutex<()> {
        &*self.commit
    }
}

/// The shared counter of preview generations.
pub struct PreviewGenerationTracker {
    latest: Arc<AtomicUsize>,
    commit: Arc<Mutex<()>>,
}

/// The generation number that follows `previous`.
pub fn next_generation_number(previous: usize) -> (n: usize)
    ensures
        n == generation_after(previous),
{
    previous.wrapping_add(1)
}

impl PreviewGenerationTracker {
    /// A tracker whose counter starts at 0.
    pub fn new() -> Self {
        PreviewGenerationTracker {
            latest: Arc::new(AtomicUsize::new(0)),
            commit: Arc::new(Mutex::new(())),
        }
    }

    /// Hands out the next generation: the counter moves on, so every
    /// earlier generation is superseded. It does not itself wait for a
    /// frame commit in progress: a caller that must not interleave with
    /// one takes `commit_lock` around this call.
    pub fn next(&self) -> (g: PreviewGeneration)
        ensures
            g.belongs_to(*self),
    {
        let previous = self.latest.fetch_add(1, std::sync::atomic::Ordering::AcqRel);
        let number = next_generation_number(previous);
        PreviewGeneration { number, latest: Arc::clone(&self.latest), commit: Arc::clone(&self.commit) }
    }

    /// The generation that is current now, without starting a new one.
    pub fn snapshot(&self) -> (g: PreviewGeneration)
        ensures
            g.belongs_to(*self),
    {
        let number = self.latest.load(std::sync::atomic::Ordering::Acquire);
        PreviewGeneration { number, latest: Arc::clone(&self.latest), commit: Arc::clone(&self.commit) }
    }

    /// The lock under which frames of this tracker's generations are
    /// committed (the one `PreviewGeneration::commit_lock` gives).
    pub fn commit_lock(&self) -> &Mutex<()> {
        &*self.commit
    }
}

impl Default for PreviewGenerationTracker {
    /// The same as `PreviewGenerationTracker::new`.
    fn default() -> Self {
        PreviewGenerationTracker::new()
    }
}

/// A new generation is never the one it replaces: once the counter moves on
/// from `previous`, a generation numbered `previous` is no longer current.
pub proof fn law_next_generation_supersedes(previous: usize)
    ensures
        generation_after(previous) != previous,
{
}

} // verus!
