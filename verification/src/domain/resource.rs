//! Resource tracking: thread and resource identifiers, per-tier quotas, the
//! errors of a deadlock-detecting tracker, and tenant usage snapshots.

use vstd::prelude::*;
use crate::text::{decimal, format_decimal, join};

verus! {

/// Thread identifier of a resource tracker.
#[derive(Debug, Clone, Copy, PartialEq, Eq, Structural, Hash, PartialOrd, Ord)]
pub struct ThreadId(pub usize);

impl ThreadId {
    /// The thread as displayed: `t<index>`.
    pub open spec fn display(self) -> Seq<char> {
        "t"@ + decimal(self.0 as nat)
    }

    /// Wraps a zero-based thread index.
    pub fn new(id: usize) -> (r: Self)
        ensures
            r.0 == id,
    {
        ThreadId(id)
    }

    /// The raw thread index.
    pub fn as_usize(self) -> (r: usize)
        ensures
            r == self.0,
    {
        self.0
    }

    /// Renders the thread as `t<index>`.
    pub fn to_display_string(&self) -> (r: String)
        ensures
            r@ == self.display(),
    {
        String::from_str("t").concat(format_decimal(self.0 as u64).as_str())
    }
}

/// Resource identifier of a resource tracker.
#[derive(Debug, Clone, Copy, PartialEq, Eq, Structural, Hash, PartialOrd, Ord)]
pub struct ResourceId(pub usize);

impl ResourceId {
    /// The resource as displayed: `r<index>`.
    pub open spec fn display(self) -> Seq<char> {
        "r"@ + decimal(self.0 as nat)
    }

    /// Wraps a zero-based resource index.
    pub fn new(id: usize) -> (r: Self)
        ensures
            r.0 == id,
    {
        ResourceId(id)
    }

    /// The raw resource index.
    pub fn as_usize(self) -> (r: usize)
        ensures
            r == self.0,
    {
        self.0
    }

    /// Renders the resource as `r<index>`.
    pub fn to_display_string(&self) -> (r: String)
        ensures
            r@ == self.display(),
    {
        String::from_str("r").concat(format_decimal(self.0 as u64).as_str())
    }
}

/// Status of a tracked thread.
#[derive(Debug, Clone, Copy, PartialEq, Eq, Structural)]
pub enum ThreadStatus {
    /// Executing; may request or release resources.
    Running,
    /// Waiting for a resource held by another thread.
    Blocked,
    /// Done; has released its resources.
    Finished,
}

/// Kinds of resource whose use is metered per tenant.
#[derive(Debug, Clone, Copy, PartialEq, Eq, Structural)]
pub enum ResourceType {
    /// CPU time in microseconds.
    CpuMicroseconds,
    /// Heap memory in bytes.
    MemoryBytes,
    /// Network traffic in bytes.
    NetworkBytes,
    /// Simultaneous in-flight requests.
    ConcurrentRequests,
    /// Persistent storage in bytes.
    StorageBytes,
}

impl ResourceType {
    /// Free-tier cap of the resource.
    pub open spec fn limit_free(self) -> u64 {
        match self {
            ResourceType::CpuMicroseconds => 100_000,
            ResourceType::MemoryBytes => 33_554_432,
            ResourceType::NetworkBytes => 10_485_760,
            ResourceType::ConcurrentRequests => 5,
            ResourceType::StorageBytes => 104_857_600,
        }
    }

    /// Pro-tier cap of the resource.
    pub open spec fn limit_pro(self) -> u64 {
        match self {
            ResourceType::CpuMicroseconds => 1_000_000,
            ResourceType::MemoryBytes => 268_435_456,
            ResourceType::NetworkBytes => 104_857_600,
            ResourceType::ConcurrentRequests => 100,
            ResourceType::StorageBytes => 10_737_418_240,
        }
    }

    /// Enterprise-tier cap of the resource.
    pub open spec fn limit_enterprise(self) -> u64 {
        match self {
            ResourceType::CpuMicroseconds => 10_000_000,
            ResourceType::MemoryBytes => 2_147_483_648,
            ResourceType::NetworkBytes => 1_073_741_824,
            ResourceType::ConcurrentRequests => 1000,
            ResourceType::StorageBytes => 1_099_511_627_776,
        }
    }

    /// The resource as displayed.
    pub open spec fn display(self) -> Seq<char> {
        match self {
            ResourceType::CpuMicroseconds => "CPU"@,
            ResourceType::MemoryBytes => "Memory"@,
            ResourceType::NetworkBytes => "Network"@,
            ResourceType::ConcurrentRequests => "Concurrency"@,
            ResourceType::StorageBytes => "Storage"@,
        }
    }

    /// The Free-tier cap.
    pub fn default_limit_free(&self) -> (r: u64)
        ensures
            r == self.limit_free(),
    {
        match self {
            ResourceType::CpuMicroseconds => 100_000,
            ResourceType::MemoryBytes => 32 * 1024 * 1024,
            ResourceType::NetworkBytes => 10 * 1024 * 1024,
            ResourceType::ConcurrentRequests => 5,
            ResourceType::StorageBytes => 100 * 1024 * 1024,
        }
    }

    /// The Pro-tier cap.
    pub fn default_limit_pro(&self) -> (r: u64)
        ensures
            r == self.limit_pro(),
    {
        match self {
            ResourceType::CpuMicroseconds => 1_000_000,
            ResourceType::MemoryBytes => 256 * 1024 * 1024,
            ResourceType::NetworkBytes => 100 * 1024 * 1024,
            ResourceType::ConcurrentRequests => 100,
            ResourceType::StorageBytes => 10 * 1024 * 1024 * 1024,
        }
    }

    /// The Enterprise-tier cap.
    pub fn default_limit_enterprise(&self) -> (r: u64)
        ensures
            r == self.limit_enterprise(),
    {
        match self {
            ResourceType::CpuMicroseconds => 10_000_000,
            ResourceType::MemoryBytes => 2 * 1024 * 1024 * 1024,
            ResourceType::NetworkBytes => 1024 * 1024 * 1024,
            ResourceType::ConcurrentRequests => 1000,
            ResourceType::StorageBytes => 1024 * 1024 * 1024 * 1024,
        }
    }

    /// Renders the resource name (`CPU`, `Memory`, `Network`, `Concurrency`, `Storage`).
    pub fn to_display_string(&self) -> (r: String)
        ensures
            r@ == self.display(),
    {
        match self {
            ResourceType::CpuMicroseconds => String::from_str("CPU"),
            ResourceType::MemoryBytes => String::from_str("Memory"),
            ResourceType::NetworkBytes => String::from_str("Network"),
            ResourceType::ConcurrentRequests => String::from_str("Concurrency"),
            ResourceType::StorageBytes => String::from_str("Storage"),
        }
    }
}

/// Each tier's cap is strictly above the one of the tier below, for every resource.
pub proof fn limits_grow_with_tier(r: ResourceType)
    ensures
        r.limit_free() < r.limit_pro() < r.limit_enterprise(),
{
}

/// The Free-tier caps in their units: 100 ms of CPU, 32 MiB of memory, 10 MiB of network
/// traffic, 5 concurrent requests and 100 MiB of storage; each is a tenth or less of the
/// Pro cap, and the Pro network cap is ten times the Free one.
pub proof fn free_tier_caps(r: ResourceType)
    ensures
        ResourceType::CpuMicroseconds.limit_free() == 100 * 1000,
        ResourceType::MemoryBytes.limit_free() == 32 * (1024 * 1024),
        ResourceType::NetworkBytes.limit_free() == 10 * (1024 * 1024),
        ResourceType::ConcurrentRequests.limit_free() == 5,
        ResourceType::StorageBytes.limit_free() == 100 * (1024 * 1024),
        ResourceType::NetworkBytes.limit_pro() == 10 * ResourceType::NetworkBytes.limit_free(),
        8 * r.limit_free() <= r.limit_pro(),
{
}

/// A usage is within the Free tier exactly when each of its five counters is within the
/// Free cap, in plain numbers: at most 100 000 µs of CPU, 32 MiB of memory, 10 MiB of
/// network traffic, 5 concurrent requests and 100 MiB of storage.
pub proof fn free_tier_check_in_numbers(u: ResourceUsage)
    ensures
        u.within_free_tier() <==> (u.cpu_used_us <= 100 * 1000 && u.memory_used_bytes <= 32
            * (1024 * 1024) && u.network_used_bytes <= 10 * (1024 * 1024)
            && u.concurrent_requests <= 5 && u.storage_used_bytes <= 100 * (1024 * 1024)),
{
}

/// Renders thread identifiers joined by `sep`.
fn join_threads(ts: &Vec<ThreadId>, sep: &str) -> (s: String)
    ensures
        s@ == join(ts@.map_values(|t: ThreadId| t.display()), sep@),
{
    let mut s = String::new();
    let mut i: usize = 0;
    while i < ts.len()
        invariant
            i <= ts.len(),
            s@ == join(ts@.take(i as int).map_values(|t: ThreadId| t.display()), sep@),
        decreases ts.len() - i,
    {
        let ghost prev = ts@.take(i as int).map_values(|t: ThreadId| t.display());
        let ghost before = s@;
        if i > 0 {
            s.append(sep);
        }
        let part = ts[i].to_display_string();
        s.append(part.as_str());
        proof {
            let next = ts@.take(i + 1).map_values(|t: ThreadId| t.display());
            assert(next.drop_last() =~= prev);
            assert(next.last() == ts@[i as int].display());
            if i == 0 {
                assert(before =~= Seq::<char>::empty());
                assert(s@ =~= next[0]);
            }
        }
        i = i + 1;
    }
    assert(ts@.take(ts.len() as int) =~= ts@);
    s
}

/// Renders resource identifiers joined by `sep`.
fn join_resources(rs: &Vec<ResourceId>, sep: &str) -> (s: String)
    ensures
        s@ == join(rs@.map_values(|r: ResourceId| r.display()), sep@),
{
    let mut s = String::new();
    let mut i: usize = 0;
    while i < rs.len()
        invariant
            i <= rs.len(),
            s@ == join(rs@.take(i as int).map_values(|r: ResourceId| r.display()), sep@),
        decreases rs.len() - i,
    {
        let ghost prev = rs@.take(i as int).map_values(|r: ResourceId| r.display());
        let ghost before = s@;
        if i > 0 {
            s.append(sep);
        }
        let part = rs[i].to_display_string();
        s.append(part.as_str());
        proof {
            let next = rs@.take(i + 1).map_values(|r: ResourceId| r.display());
            assert(next.drop_last() =~= prev);
            assert(next.last() == rs@[i as int].display());
            if i == 0 {
                assert(before =~= Seq::<char>::empty());
                assert(s@ =~= next[0]);
            }
        }
        i = i + 1;
    }
    assert(rs@.take(rs.len() as int) =~= rs@);
    s
}

/// Errors of a resource tracker.
#[derive(Debug, Clone, PartialEq, Eq)]
pub enum ResourceError {
    /// The thread index exceeds the tracker's thread count.
    InvalidThreadId(ThreadId),
    /// The resource index exceeds the tracker's resource count.
    InvalidResourceId(ResourceId),
    /// The thread already holds the resource.
    AlreadyOwned {
        /// Thread that already owns the resource.
        thread: ThreadId,
        /// Resource acquired a second time.
        resource: ResourceId,
    },
    /// The thread released a resource it does not hold.
    NotOwned {
        /// Thread that does not own the resource.
        thread: ThreadId,
        /// Resource whose release was attempted.
        resource: ResourceId,
    },
    /// A circular wait among threads.
    DeadlockDetected {
        /// The threads of the cycle, in order.
        cycle: Vec<ThreadId>,
    },
    /// A thread finished while still holding resources.
    ResourceLeak {
        /// Thread that finished.
        thread: ThreadId,
        /// Resources it still held.
        held_resources: Vec<ResourceId>,
    },
}

impl ResourceError {
    /// The error as displayed.
    pub open spec fn display(self) -> Seq<char> {
        match self {
            ResourceError::InvalidThreadId(t) => "Invalid thread ID: "@ + t.display(),
            ResourceError::InvalidResourceId(r) => "Invalid resource ID: "@ + r.display(),
            ResourceError::AlreadyOwned { thread, resource } =>
                "Thread "@ + thread.display() + " already owns resource "@ + resource.display(),
            ResourceError::NotOwned { thread, resource } =>
                "Thread "@ + thread.display() + " does not own resource "@ + resource.display(),
            ResourceError::DeadlockDetected { cycle } =>
                "Deadlock detected! Cycle: "@ + join(
                    cycle@.map_values(|t: ThreadId| t.display()),
                    " -> "@,
                ),
            ResourceError::ResourceLeak { thread, held_resources } =>
                "Thread "@ + thread.display() + " finished with resources: "@ + join(
                    held_resources@.map_values(|r: ResourceId| r.display()),
                    ", "@,
                ),
        }
    }

    /// Renders the error; a deadlock lists its cycle as `t0 -> t1 -> ...`, a leak
    /// its resources as `r0, r1, ...`.
    pub fn to_display_string(&self) -> (r: String)
        ensures
            r@ == self.display(),
    {
        match self {
            ResourceError::InvalidThreadId(t) => String::from_str("Invalid thread ID: ").concat(
                t.to_display_string().as_str(),
            ),
            ResourceError::InvalidResourceId(r) => String::from_str(
                "Invalid resource ID: ",
            ).concat(r.to_display_string().as_str()),
            ResourceError::AlreadyOwned { thread, resource } => String::from_str("Thread ")
                .concat(thread.to_display_string().as_str())
                .concat(" already owns resource ")
                .concat(resource.to_display_string().as_str()),
            ResourceError::NotOwned { thread, resource } => String::from_str("Thread ")
                .concat(thread.to_display_string().as_str())
                .concat(" does not own resource ")
                .concat(resource.to_display_string().as_str()),
            ResourceError::DeadlockDetected { cycle } => String::from_str(
                "Deadlock detected! Cycle: ",
            ).concat(join_threads(cycle, " -> ").as_str()),
            ResourceError::ResourceLeak { thread, held_resources } => String::from_str("Thread ")
                .concat(thread.to_display_string().as_str())
                .concat(" finished with resources: ")
                .concat(join_resources(held_resources, ", ").as_str()),
        }
    }
}

/// Outcome of a resource request.
#[derive(Debug, Clone, Copy, PartialEq, Eq, Structural)]
pub enum RequestResult {
    /// Granted at once.
    Acquired,
    /// Held by another thread; the requester waits.
    Blocked,
}

/// Deadlock-detecting tracker of which threads hold and wait for which resources.
pub trait ResourceTracker: Send + Sync + core::fmt::Debug + Sized {
    /// A tracker for `num_threads` threads and `num_resources` resources.
    fn new(num_threads: usize, num_resources: usize) -> Self;

    /// `thread` requests `resource`.
    fn request(&mut self, thread: ThreadId, resource: ResourceId) -> Result<
        RequestResult,
        ResourceError,
    >;

    /// `thread` releases `resource`.
    fn release(&mut self, thread: ThreadId, resource: ResourceId) -> Result<(), ResourceError>;

    /// Marks `thread` as finished.
    fn on_finish(&mut self, thread: ThreadId) -> Result<(), ResourceError>;

    /// Whether a deadlock exists.
    fn has_deadlock(&self) -> bool;

    /// The threads involved in a deadlock.
    fn deadlocked_threads(&self) -> Vec<ThreadId>;

    /// Contention score guiding the exploration heuristic.
    fn contention_score(&self) -> u32;

    /// Interleaving score guiding the exploration heuristic.
    fn interleaving_score(&self) -> u32;
}

/// Resource usage of one tenant in the current period.
#[derive(Debug, Clone)]
pub struct ResourceUsage {
    /// The tenant.
    pub tenant_id: String,
    /// CPU time consumed, in microseconds.
    pub cpu_used_us: u64,
    /// Heap memory allocated, in bytes.
    pub memory_used_bytes: u64,
    /// Network traffic, in bytes.
    pub network_used_bytes: u64,
    /// Requests in flight.
    pub concurrent_requests: u32,
    /// Persistent storage in use, in bytes.
    pub storage_used_bytes: u64,
}

impl ResourceUsage {
    /// Whether every counter (CPU, memory, network, concurrency and storage) is within
    /// its Free-tier cap.
    pub open spec fn within_free_tier(self) -> bool {
        &&& self.cpu_used_us <= ResourceType::CpuMicroseconds.limit_free()
        &&& self.memory_used_bytes <= ResourceType::MemoryBytes.limit_free()
        &&& self.network_used_bytes <= ResourceType::NetworkBytes.limit_free()
        &&& self.concurrent_requests <= ResourceType::ConcurrentRequests.limit_free()
        &&& self.storage_used_bytes <= ResourceType::StorageBytes.limit_free()
    }

    /// A zeroed snapshot for `tenant_id`.
    pub fn new(tenant_id: &str) -> (r: Self)
        ensures
            r.tenant_id@ == tenant_id@,
            r.cpu_used_us == 0,
            r.memory_used_bytes == 0,
            r.network_used_bytes == 0,
            r.concurrent_requests == 0,
            r.storage_used_bytes == 0,
    {
        ResourceUsage {
            tenant_id: String::from_str(tenant_id),
            cpu_used_us: 0,
            memory_used_bytes: 0,
            network_used_bytes: 0,
            concurrent_requests: 0,
            storage_used_bytes: 0,
        }
    }

    /// Whether the usage is within the Free-tier caps.
    pub fn is_within_free_tier(&self) -> (r: bool)
        ensures
            r == self.within_free_tier(),
    {
        self.cpu_used_us <= ResourceType::CpuMicroseconds.default_limit_free()
            && self.memory_used_bytes <= ResourceType::MemoryBytes.default_limit_free()
            && self.network_used_bytes <= ResourceType::NetworkBytes.default_limit_free()
            && (self.concurrent_requests as u64)
            <= ResourceType::ConcurrentRequests.default_limit_free()
            && self.storage_used_bytes <= ResourceType::StorageBytes.default_limit_free()
    }
}

impl Default for ResourceUsage {
    /// A zeroed snapshot for the tenant `unknown`.
    fn default() -> (r: Self)
        ensures
            r.tenant_id@ == "unknown"@,
            r.cpu_used_us == 0,
            r.memory_used_bytes == 0,
            r.network_used_bytes == 0,
            r.concurrent_requests == 0,
            r.storage_used_bytes == 0,
    {
        ResourceUsage::new("unknown")
    }
}

} // verus!
