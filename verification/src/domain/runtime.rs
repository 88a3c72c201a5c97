//! Snapshot of an execution runtime's resource consumption and workload.

use vstd::prelude::*;

verus! {

/// Runtime statistics snapshot.
#[derive(Debug, Clone, PartialEq, Eq, Structural)]
pub struct RuntimeStats {
    /// Isolates available in the pool.
    pub isolate_count: u32,
    /// Isolates currently executing workloads.
    pub active_isolates: u32,
    /// Heap memory in use, in bytes.
    pub heap_bytes: u64,
    /// Requests processed since the runtime started.
    pub total_requests: u64,
    /// Requests queued or in flight.
    pub pending_requests: u32,
    /// Cumulative execution time over all requests, in microseconds.
    pub total_exec_us: u64,
}

impl RuntimeStats {
    /// The snapshot with every counter at zero.
    pub open spec fn zeroed() -> Self {
        RuntimeStats {
            isolate_count: 0,
            active_isolates: 0,
            heap_bytes: 0,
            total_requests: 0,
            pending_requests: 0,
            total_exec_us: 0,
        }
    }

    /// Empty statistics: every counter is zero.
    pub fn new() -> (r: Self)
        ensures
            r == Self::zeroed(),
    {
        RuntimeStats {
            isolate_count: 0,
            active_isolates: 0,
            heap_bytes: 0,
            total_requests: 0,
            pending_requests: 0,
            total_exec_us: 0,
        }
    }
}

impl Default for RuntimeStats {
    /// Empty statistics, as `new`.
    fn default() -> (r: Self)
        ensures
            r == Self::zeroed(),
    {
        RuntimeStats::new()
    }
}

} // verus!
