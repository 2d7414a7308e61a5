//! The cooperative cancellation primitive: a cross-thread stop flag with
//! timed-wait semantics.
//!
//! One thread (the control bridge) calls [`WaitStopper::stop`]; the worker
//! thread sleeps in [`WaitStopper::wait_until_stop_timeout`] and wakes as soon
//! as the flag is set or its timeout elapses, without polling. The flag is
//! guarded by a mutex and a wait/notify mechanism and never resets.

use std::sync::Condvar;
use std::sync::Mutex;
use vstd::prelude::*;

verus! {

/// The answer a timed wait returns: whether a stop has been requested.
#[derive(Clone, Copy, Debug, PartialEq, Eq, Hash, Structural)]
pub struct StopResult {
    stop_requested: bool,
}

impl View for StopResult {
    type V = bool;

    closed spec fn view(&self) -> bool {
        self.stop_requested
    }
}

impl StopResult {
    /// Whether the waiter should stop.
    pub fn wants_to_stop(&self) -> (r: bool)
        ensures
            r == self@,
    {
        self.stop_requested
    }

    /// The result that reports a requested stop.
    pub fn new_wants_to_stop() -> (r: Self)
        ensures
            r@ == true,
    {
        StopResult { stop_requested: true }
    }

    /// The result that reports no requested stop.
    pub fn new_does_not_want_to_stop() -> (r: Self)
        ensures
            r@ == false,
    {
        StopResult { stop_requested: false }
    }
}

impl Default for StopResult {
    /// The default result reports no requested stop.
    fn default() -> (r: Self)
        ensures
            r@ == false,
    {
        StopResult { stop_requested: false }
    }
}

#[verifier::external_type_specification]
#[verifier::external_body]
#[verifier::reject_recursive_types(T)]
pub struct ExMutex<T: ?Sized>(Mutex<T>);

#[verifier::external_type_specification]
#[verifier::external_body]
pub struct ExCondvar(Condvar);

/// Relies on std::sync::Mutex::new: the returned mutex guards the given flag.
#[verifier::external_body]
fn flag_mutex_new(initial: StopResult) -> Mutex<StopResult> {
    Mutex::new(initial)
}

/// Relies on std::sync::Condvar::new.
#[verifier::external_body]
fn condvar_new() -> Condvar {
    Condvar::new()
}

/// Relies on std::sync::Mutex::lock: stores the value behind the lock. A
/// poisoned lock is recovered and written through, not propagated.
#[verifier::external_body]
fn flag_mutex_store(mutex: &Mutex<StopResult>, value: StopResult) {
    let mut guard = match mutex.lock() {
        Ok(g) => g,
        Err(poisoned) => poisoned.into_inner(),
    };
    *guard = value;
}

/// Relies on std::sync::Condvar::notify_all: wakes every thread currently
/// blocked on the condition variable.
#[verifier::external_body]
fn condvar_notify_all(cond_var: &Condvar) {
    cond_var.notify_all();
}

/// Relies on std::sync::Condvar::wait_timeout_while, entered through
/// std::sync::Mutex::lock: blocks until the flag is set or the timeout
/// elapses, and returns the flag as last seen under the lock. The flag is
/// first examined under the same lock acquisition the wait uses, so a stop
/// requested between the check and the wait cannot be missed, and a wait on an
/// already-set flag returns at once. Nothing more is promised of the result:
/// another thread may set the flag at any moment.
#[verifier::external_body]
fn flag_wait_timeout(mutex: &Mutex<StopResult>, cond_var: &Condvar, timeout_ms: u64) -> StopResult {
    let guard = match mutex.lock() {
        Ok(g) => g,
        Err(poisoned) => poisoned.into_inner(),
    };
    let timeout = std::time::Duration::from_millis(timeout_ms);
    match cond_var.wait_timeout_while(guard, timeout, |flag| !flag.wants_to_stop()) {
        Ok((g, _)) => *g,
        Err(poisoned) => *poisoned.into_inner().0,
    }
}

/// A cross-thread stop signal. Created unset once per supervision run;
/// [`WaitStopper::stop`] sets it and releases all current and future waiters;
/// it never resets.
pub struct WaitStopper {
    mutex: Mutex<StopResult>,
    cond_var: Condvar,
}

impl WaitStopper {
    /// Creates a stopper whose flag starts unset.
    pub fn new() -> Self {
        let mutex = flag_mutex_new(StopResult::new_does_not_want_to_stop());
        let cond_var = condvar_new();
        WaitStopper { mutex, cond_var }
    }

    /// Blocks the calling thread until a stop has been requested (by any
    /// thread, at any time, including before this call) or `timeout_ms`
    /// milliseconds elapse, and returns whether a stop was requested. Returns
    /// immediately when a stop was already requested; never busy-polls.
    pub fn wait_until_stop_timeout(&self, timeout_ms: u64) -> StopResult {
        flag_wait_timeout(&self.mutex, &self.cond_var, timeout_ms)
    }

    /// Requests a stop: sets the flag and wakes all current waiters.
    /// Idempotent, and safe to call from a thread other than the waiting one.
    pub fn stop(&self) {
        flag_mutex_store(&self.mutex, StopResult::new_wants_to_stop());
        condvar_notify_all(&self.cond_var);
    }

    /// Waits on `stopper` if one is supplied. With none — the run-once mode
    /// with no external controller — the wait degenerates to an unconditional
    /// timed sleep (a wait on a fresh stopper that nothing can set) and always
    /// reports that no stop was requested.
    pub fn wait_until_stop_timeout_opt(stopper: Option<&WaitStopper>, timeout_ms: u64) -> (r:
        StopResult)
        ensures
            stopper is None ==> r@ == false,
    {
        match stopper {
            Some(s) => s.wait_until_stop_timeout(timeout_ms),
            None => {
                let lone = WaitStopper::new();
                lone.wait_until_stop_timeout(timeout_ms);
                StopResult::new_does_not_want_to_stop()
            },
        }
    }
}

} // verus!
