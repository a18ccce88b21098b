//! The standard library's locks, condition variables and clocks, as the
//! shared managers use them. Verus sees none of their contents: a value
//! read under a lock, or a time read from the clock, is whatever another
//! thread or the machine made it.
use std::sync::{Condvar, Mutex, MutexGuard};
use std::time::{Duration, Instant};
use vstd::prelude::*;

verus! {

/// `std::sync::Mutex`, opaque to Verus.
#[verifier::external_type_specification]
#[verifier::external_body]
#[verifier::reject_recursive_types(T)]
pub struct ExMutex<T: ?Sized>(Mutex<T>);

/// `std::sync::MutexGuard`, opaque to Verus.
#[verifier::external_type_specification]
#[verifier::external_body]
#[verifier::reject_recursive_types(T)]
pub struct ExMutexGuard<'a, T: ?Sized + 'a>(MutexGuard<'a, T>);

/// `std::sync::Condvar`, opaque to Verus.
#[verifier::external_type_specification]
#[verifier::external_body]
pub struct ExCondvar(Condvar);

/// `std::time::Instant`, opaque to Verus.
#[verifier::external_type_specification]
#[verifier::external_body]
pub struct ExInstant(Instant);

/// `std::path::PathBuf`, opaque to Verus.
#[verifier::external_type_specification]
#[verifier::external_body]
pub struct ExPathBuf(std::path::PathBuf);

/// `Mutex::new`: a new unlocked mutex holding `t` (nothing is claimed of
/// what later reads of it see).
pub assume_specification<T>[ Mutex::<T>::new ](t: T) -> Mutex<T>;

/// `Condvar::new`: a condition variable with no waiters.
pub assume_specification[ Condvar::new ]() -> Condvar;

/// `Condvar::notify_one`: wakes one waiter, if any.
pub assume_specification[ Condvar::notify_one ](c: &Condvar);

/// `Condvar::notify_all`: wakes every waiter.
pub assume_specification[ Condvar::notify_all ](c: &Condvar);

/// `Instant::now`: the current reading of the monotonic clock.
pub assume_specification[ Instant::now ]() -> Instant;

/// `Instant::elapsed`: the time since `i` (zero if the clock has not
/// moved on).
pub assume_specification[ Instant::elapsed ](i: &Instant) -> Duration;

/// `Duration::as_nanos`: the whole duration in nanoseconds; no duration
/// exceeds `Duration::MAX`, that is `u64::MAX` seconds and 999,999,999
/// nanoseconds.
pub assume_specification[ Duration::as_nanos ](d: &Duration) -> (n: u128)
    ensures
        n <= 18_446_744_073_709_551_615_999_999_999u128,
;

/// The duration of `secs` seconds and `nanos` nanoseconds, as
/// `Duration::new` makes it.
pub uninterp spec fn duration_with(secs: u64, nanos: u32) -> Duration;

/// `Duration::new`: `secs` seconds and `nanos` nanoseconds, the same
/// duration for the same arguments; it panics when the nanoseconds carry
/// over into a full `u64` of seconds, which the `requires` rules out.
pub assume_specification[ Duration::new ](secs: u64, nanos: u32) -> (d: Duration)
    requires
        nanos < 1_000_000_000,
    ensures
        d == duration_with(secs, nanos),
;

/// Locks `m`, waiting for other holders; calls `Mutex::lock`. A lock
/// poisoned by a panicking holder is taken over as it stands. Only
/// `Monitor::lock` calls this, and its guard stays inside a `MonitorGuard`:
/// no public function of the library returns one, and no function of the
/// library locks a monitor while it holds that monitor's guard, so the
/// locking again on the holding thread that std leaves unspecified does
/// not arise.
#[verifier::external_body]
fn lock<T>(m: &Mutex<T>) -> MutexGuard<'_, T> {
    match m.lock() {
        Ok(guard) => guard,
        Err(poisoned) => poisoned.into_inner(),
    }
}

/// A value shared between threads behind a lock, together with the one
/// condition variable on which its waiters sleep. Every wait goes through a
/// guard of this monitor, so the condition variable is only ever used with
/// this monitor's lock.
#[verifier::reject_recursive_types(T)]
pub(crate) struct Monitor<T> {
    mutex: Mutex<T>,
    cvar: Condvar,
}

/// The held lock of a monitor, with that monitor's condition variable.
#[verifier::reject_recursive_types(T)]
pub(crate) struct MonitorGuard<'a, T> {
    guard: MutexGuard<'a, T>,
    cvar: &'a Condvar,
}

impl<T> Monitor<T> {
    /// A monitor holding `value`, with no waiters.
    pub(crate) fn new(value: T) -> Self {
        Monitor { mutex: Mutex::new(value), cvar: Condvar::new() }
    }

    /// Locks the monitor, waiting for other holders.
    pub(crate) fn lock(&self) -> MonitorGuard<'_, T> {
        MonitorGuard { guard: lock(&self.mutex), cvar: &self.cvar }
    }

    /// Wakes one waiter of this monitor, if any.
    pub(crate) fn notify_one(&self) {
        self.cvar.notify_one();
    }

    /// Wakes every waiter of this monitor.
    pub(crate) fn notify_all(&self) {
        self.cvar.notify_all();
    }
}

impl<'a, T> MonitorGuard<'a, T> {
    /// The value behind the held lock (`DerefMut::deref_mut` of the guard);
    /// what it holds is not stated.
    #[verifier::external_body]
    pub(crate) fn value(&mut self) -> &mut T {
        &mut *self.guard
    }

    /// Releases the lock and waits for a notification of the monitor (or a
    /// spurious wake-up), then locks again. Calls `Condvar::wait` with the
    /// monitor's own condition variable and lock; a poisoned lock is taken
    /// over as it stands.
    #[verifier::external_body]
    pub(crate) fn wait(self) -> Self {
        let cvar = self.cvar;
        match cvar.wait(self.guard) {
            Ok(guard) => MonitorGuard { guard, cvar },
            Err(poisoned) => MonitorGuard { guard: poisoned.into_inner(), cvar },
        }
    }

    /// As `wait`, but waking up at the latest after `timeout`. Calls
    /// `Condvar::wait_timeout` and keeps the guard of its result.
    #[verifier::external_body]
    pub(crate) fn wait_timeout(self, timeout: Duration) -> Self {
        let cvar = self.cvar;
        match cvar.wait_timeout(self.guard, timeout) {
            Ok((guard, _)) => MonitorGuard { guard, cvar },
            Err(poisoned) => MonitorGuard { guard: poisoned.into_inner().0, cvar },
        }
    }
}

} // verus!
