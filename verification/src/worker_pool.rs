//! How many upload workers run and how many requests may be in flight.

use vstd::prelude::*;

verus! {

/// The size of the upload worker pool.
#[derive(Clone, Debug)]
pub struct WorkerPoolConfig {
    pub workers: usize,
    pub max_inflight: usize,
}

impl Default for WorkerPoolConfig {
    fn default() -> (c: Self)
        ensures
            c.workers == 4,
            c.max_inflight == 16,
    {
        WorkerPoolConfig { workers: 4, max_inflight: 16 }
    }
}

} // verus!
