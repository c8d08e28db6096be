//! The thread pool interface and its rayon implementation.
use vstd::prelude::*;

verus! {

/// A pool that runs submitted work items on worker threads.
pub trait ThreadPool: Send + Sync {
    /// Submits a work item; it may run on any worker thread.
    fn spawn<F>(&self, f: F) where F: FnOnce() + Send + 'static;
}

/// rayon's global thread pool.
#[derive(Debug)]
pub struct RayonPool;

impl RayonPool {
    /// A handle on rayon's global pool.
    pub fn new() -> (p: Self)
        ensures
            p == RayonPool,
    {
        RayonPool
    }
}

/// `rayon::spawn`: queues `f` on rayon's global pool and returns at once;
/// nothing about when or on which thread it runs is promised.
#[verifier::external_body]
fn rayon_spawn<F>(f: F) where F: FnOnce() + Send + 'static {
    rayon::spawn(f)
}

impl ThreadPool for RayonPool {
    fn spawn<F>(&self, f: F) where F: FnOnce() + Send + 'static {
        rayon_spawn(f)
    }
}

} // verus!
