//! The progress channel: a shared pair of captured output text and a
//! completion flag.  One worker appends to it while any number of
//! observers poll it; every access runs under a verified reader-writer
//! lock, so no operation ever blocks beyond the copy inside the
//! critical section.  The channel imposes no protocol of its own — when
//! the flag flips is the run state machine's law, proved in `run`.

use std::sync::Arc;
use vstd::prelude::*;
use vstd::rwlock::{RwLock, RwLockPredicate};

verus! {

/// What the channel holds: the output captured so far, and whether the
/// worker has finished.  `is_done` starts true: an idle channel reports
/// the last run (or no run at all) as finished.
pub struct ProgressInner {
    pub stdout: String,
    pub is_done: bool,
}

/// The lock's invariant: the channel accepts every value of the pair.
pub struct ProgressPred;

impl RwLockPredicate<ProgressInner> for ProgressPred {
    open spec fn inv(self, v: ProgressInner) -> bool {
        true
    }
}

/// A handle on one shared progress channel.  Cloning the handle shares
/// the channel; every handle reads and writes the same pair.
#[derive(Clone)]
pub struct S2GSync {
    inner: Arc<RwLock<ProgressInner, ProgressPred>>,
}

impl S2GSync {
    /// A fresh channel: no output, not running.
    pub fn new() -> (r: S2GSync) {
        let inner = ProgressInner { stdout: String::new(), is_done: true };
        S2GSync { inner: Arc::new(RwLock::new(inner, Ghost(ProgressPred))) }
    }

    /// Appends captured tool output to the log.
    pub fn write(&self, text: &str) {
        let lock = &*self.inner;
        let (mut v, handle) = lock.acquire_write();
        v.stdout.append(text);
        handle.release_write(v);
    }

    /// Replaces the whole log, e.g. to reset it at run start or to
    /// clear it on request.
    pub fn set_text(&self, text: &str) {
        let lock = &*self.inner;
        let (mut v, handle) = lock.acquire_write();
        v.stdout = String::from_str(text);
        handle.release_write(v);
    }

    /// A copy of the log as it stands; never blocks on the worker.
    pub fn read_snapshot(&self) -> (r: String) {
        let lock = &*self.inner;
        let handle = lock.acquire_read();
        let r = handle.borrow().stdout.clone();
        handle.release_read();
        r
    }

    /// Flips the completion flag; the worker sets running at run start
    /// and clears it exactly once, when the run ends.
    pub fn set_running(&self, running: bool) {
        let lock = &*self.inner;
        let (mut v, handle) = lock.acquire_write();
        v.is_done = !running;
        handle.release_write(v);
    }

    /// True while a worker has claimed the channel and not yet finished.
    pub fn is_running(&self) -> (r: bool) {
        !self.is_done()
    }

    /// True when no run is in flight on this channel.
    pub fn is_done(&self) -> (r: bool) {
        let lock = &*self.inner;
        let handle = lock.acquire_read();
        let r = handle.borrow().is_done;
        handle.release_read();
        r
    }
}

} // verus!
