//! State shared by every worker and every connection: a visit counter.

use std::sync::atomic::{AtomicUsize, Ordering};
use vstd::prelude::*;

verus! {

/// Process-wide state, created once before any worker starts and shared by
/// reference with all of them.
pub struct ServerContext {
    counter: AtomicUsize,
}

/// A counter that many threads may bump and read without locking.
///
/// Other threads may change the value between any two calls, so no call here
/// promises a value: a read sees some value that the counter held, never a
/// torn one, because the counter is a hardware atomic.
pub trait Counter {
    /// Adds one to the counter.
    fn increment(&self);

    /// The counter's current value.
    fn get(&self) -> usize;
}

impl ServerContext {
    /// A context whose counter starts at zero.
    pub fn new() -> (r: ServerContext) {
        ServerContext { counter: AtomicUsize::new(0) }
    }
}

impl Counter for ServerContext {
    fn increment(&self) {
        let _ = self.counter.fetch_add(1, Ordering::SeqCst);
    }

    fn get(&self) -> usize {
        self.counter.load(Ordering::SeqCst)
    }
}

} // verus!
