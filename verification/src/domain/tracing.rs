//! Deterministic event tracing: thread identifiers, Lamport timestamps, traced
//! memory and synchronization operations, and the trace-storage interface.

use vstd::prelude::*;
use crate::domain::memory::Address;
use crate::text::{decimal, format_decimal, format_digits, hex};

verus! {

/// Number of threads the tracer can observe.
pub const MAX_THREADS: usize = 16;

/// Tracing thread identifier, below `MAX_THREADS` so that it indexes per-thread tables.
#[derive(Debug, Clone, Copy, PartialEq, Eq, Structural, Hash, PartialOrd, Ord)]
pub struct ThreadId(pub u32);

impl ThreadId {
    /// The thread as displayed: `T<index>`.
    pub open spec fn display(self) -> Seq<char> {
        "T"@ + decimal(self.0 as nat)
    }

    /// Wraps a thread index, which must be below `MAX_THREADS`.
    pub fn new(id: u32) -> (r: Self)
        requires
            id < MAX_THREADS,
        ensures
            r.0 == id,
    {
        ThreadId(id)
    }

    /// The index as a `usize`.
    pub fn as_index(self) -> (r: usize)
        ensures
            r == self.0,
    {
        self.0 as usize
    }

    /// Renders the thread as `T<index>`.
    pub fn to_display_string(&self) -> (r: String)
        ensures
            r@ == self.display(),
    {
        String::from_str("T").concat(format_decimal(self.0 as u64).as_str())
    }
}

/// Lamport logical timestamp.
#[derive(Debug, Clone, Copy, PartialEq, Eq, Structural, PartialOrd, Ord, Hash)]
pub struct LamportTimestamp(pub u64);

/// The timestamp after a local event: one more, wrapping to zero past `u64::MAX`.
pub open spec fn incremented(t: u64) -> u64 {
    if t == u64::MAX {
        0
    } else {
        (t + 1) as u64
    }
}

/// The timestamp after receiving `remote`: one more than the larger of the two,
/// saturating at `u64::MAX`.
pub open spec fn synced(local: u64, remote: u64) -> u64 {
    let m = if local >= remote { local } else { remote };
    if m == u64::MAX {
        u64::MAX
    } else {
        (m + 1) as u64
    }
}

impl LamportTimestamp {
    /// The initial timestamp, zero.
    pub fn zero() -> (r: LamportTimestamp)
        ensures
            r.0 == 0,
    {
        LamportTimestamp(0)
    }

    /// The timestamp as displayed: `@<value>`.
    pub open spec fn display(self) -> Seq<char> {
        "@"@ + decimal(self.0 as nat)
    }

    /// Advances the timestamp by one for a local event (wrapping).
    pub fn increment(&mut self)
        ensures
            final(self).0 == incremented(old(self).0),
    {
        self.0 = self.0.wrapping_add(1);
    }

    /// Sets the timestamp to one more than the larger of itself and `remote`
    /// (saturating), on the arrival of a message.
    pub fn sync(&mut self, remote: LamportTimestamp)
        ensures
            final(self).0 == synced(old(self).0, remote.0),
    {
        let m = if self.0 >= remote.0 {
            self.0
        } else {
            remote.0
        };
        self.0 = m.saturating_add(1);
    }

    /// Renders the timestamp as `@<value>`.
    pub fn to_display_string(&self) -> (r: String)
        ensures
            r@ == self.display(),
    {
        String::from_str("@").concat(format_decimal(self.0).as_str())
    }
}

/// Receiving a message moves the clock past both its own value and the sender's,
/// unless it is already saturated; a local event moves it forward by one unless it wraps.
pub proof fn lamport_clock_advances(local: u64, remote: u64)
    ensures
        synced(local, remote) >= local,
        synced(local, remote) >= remote,
        local < u64::MAX && remote < u64::MAX ==> synced(local, remote) > local
            && synced(local, remote) > remote,
        local < u64::MAX ==> incremented(local) == local + 1,
        incremented(u64::MAX) == 0,
{
}

/// Metadata of every traced event.
#[derive(Debug, Clone, Copy)]
pub struct EventMetadata {
    /// Lamport timestamp of the event.
    pub timestamp: LamportTimestamp,
    /// Thread that generated it.
    pub thread_id: ThreadId,
    /// Sequence number within the thread.
    pub seq_num: u64,
}

impl EventMetadata {
    /// Creates the metadata of an event.
    pub fn new(timestamp: LamportTimestamp, thread_id: ThreadId, seq_num: u64) -> (r: Self)
        ensures
            r.timestamp == timestamp,
            r.thread_id == thread_id,
            r.seq_num == seq_num,
    {
        EventMetadata { timestamp, thread_id, seq_num }
    }
}

/// Ordering semantics of a memory fence.
#[derive(Debug, Clone, Copy, PartialEq, Eq, Structural, Hash)]
pub enum FenceType {
    /// Later accesses are not moved above the fence.
    Acquire,
    /// Earlier accesses are not moved below the fence.
    Release,
    /// Full barrier.
    SeqCst,
}

impl FenceType {
    /// The fence type as displayed.
    pub open spec fn display(self) -> Seq<char> {
        match self {
            FenceType::Acquire => "Acquire"@,
            FenceType::Release => "Release"@,
            FenceType::SeqCst => "SeqCst"@,
        }
    }

    /// Renders `Acquire`, `Release` or `SeqCst`.
    pub fn to_display_string(&self) -> (r: String)
        ensures
            r@ == self.display(),
    {
        match self {
            FenceType::Acquire => String::from_str("Acquire"),
            FenceType::Release => String::from_str("Release"),
            FenceType::SeqCst => String::from_str("SeqCst"),
        }
    }
}

/// A traced memory operation.
#[derive(Debug, Clone, Copy, PartialEq, Eq, Structural)]
pub enum MemoryOperation {
    /// Load.
    Read {
        /// Address read.
        addr: Address,
        /// Value observed.
        value: u64,
        /// Whether the value came from the store buffer.
        cache_hit: bool,
    },
    /// Store.
    Write {
        /// Address written.
        addr: Address,
        /// Value stored.
        value: u64,
        /// Whether the write went into the store buffer.
        buffered: bool,
    },
    /// A store-buffer entry drained to main memory.
    BufferFlush {
        /// Address flushed.
        addr: Address,
        /// Value written to main memory.
        value: u64,
    },
    /// Memory barrier.
    Fence {
        /// Its ordering semantics.
        fence_type: FenceType,
    },
}

impl MemoryOperation {
    /// The operation as displayed.
    pub open spec fn display(self) -> Seq<char> {
        match self {
            MemoryOperation::Read { addr, value, cache_hit } =>
                "Read(0x"@ + hex(addr.0 as nat) + ") = "@ + decimal(value as nat) + " "@ + (if cache_hit {
                    "[cache]"@
                } else {
                    "[main]"@
                }),
            MemoryOperation::Write { addr, value, buffered } =>
                "Write(0x"@ + hex(addr.0 as nat) + ", "@ + decimal(value as nat) + ") "@ + (if buffered {
                    "[buffered]"@
                } else {
                    "[direct]"@
                }),
            MemoryOperation::BufferFlush { addr, value } =>
                "Flush(0x"@ + hex(addr.0 as nat) + ", "@ + decimal(value as nat) + ")"@,
            MemoryOperation::Fence { fence_type } => "Fence("@ + fence_type.display() + ")"@,
        }
    }

    /// Renders the operation, e.g. `Read(0x10) = 7 [cache]`.
    pub fn to_display_string(&self) -> (r: String)
        ensures
            r@ == self.display(),
    {
        match self {
            MemoryOperation::Read { addr, value, cache_hit } => {
                let tag = if *cache_hit {
                    "[cache]"
                } else {
                    "[main]"
                };
                String::from_str("Read(0x")
                    .concat(format_digits(addr.0 as u64, 16).as_str())
                    .concat(") = ")
                    .concat(format_decimal(*value).as_str())
                    .concat(" ")
                    .concat(tag)
            },
            MemoryOperation::Write { addr, value, buffered } => {
                let tag = if *buffered {
                    "[buffered]"
                } else {
                    "[direct]"
                };
                String::from_str("Write(0x")
                    .concat(format_digits(addr.0 as u64, 16).as_str())
                    .concat(", ")
                    .concat(format_decimal(*value).as_str())
                    .concat(") ")
                    .concat(tag)
            },
            MemoryOperation::BufferFlush { addr, value } => String::from_str("Flush(0x")
                .concat(format_digits(addr.0 as u64, 16).as_str())
                .concat(", ")
                .concat(format_decimal(*value).as_str())
                .concat(")"),
            MemoryOperation::Fence { fence_type } => String::from_str("Fence(")
                .concat(fence_type.to_display_string().as_str())
                .concat(")"),
        }
    }
}

/// A traced synchronization event.
#[derive(Debug, Clone, Copy, PartialEq, Eq, Structural, Hash)]
pub enum SyncEvent {
    /// Mutex acquired.
    MutexLock {
        /// The lock.
        lock_id: u64,
    },
    /// Mutex released.
    MutexUnlock {
        /// The lock.
        lock_id: u64,
    },
    /// Wait on a condition variable.
    CondVarWait {
        /// The condition variable.
        cv_id: u64,
    },
    /// Signal of a condition variable.
    CondVarSignal {
        /// The condition variable.
        cv_id: u64,
    },
}

impl SyncEvent {
    /// The event as displayed.
    pub open spec fn display(self) -> Seq<char> {
        match self {
            SyncEvent::MutexLock { lock_id } => "MutexLock("@ + decimal(lock_id as nat) + ")"@,
            SyncEvent::MutexUnlock { lock_id } => "MutexUnlock("@ + decimal(lock_id as nat) + ")"@,
            SyncEvent::CondVarWait { cv_id } => "CondVarWait("@ + decimal(cv_id as nat) + ")"@,
            SyncEvent::CondVarSignal { cv_id } => "CondVarSignal("@ + decimal(cv_id as nat) + ")"@,
        }
    }

    /// Renders the event, e.g. `MutexLock(3)`.
    pub fn to_display_string(&self) -> (r: String)
        ensures
            r@ == self.display(),
    {
        match self {
            SyncEvent::MutexLock { lock_id } => String::from_str("MutexLock(").concat(
                format_decimal(*lock_id).as_str(),
            ).concat(")"),
            SyncEvent::MutexUnlock { lock_id } => String::from_str("MutexUnlock(").concat(
                format_decimal(*lock_id).as_str(),
            ).concat(")"),
            SyncEvent::CondVarWait { cv_id } => String::from_str("CondVarWait(").concat(
                format_decimal(*cv_id).as_str(),
            ).concat(")"),
            SyncEvent::CondVarSignal { cv_id } => String::from_str("CondVarSignal(").concat(
                format_decimal(*cv_id).as_str(),
            ).concat(")"),
        }
    }
}

/// An explicit update of a thread's logical clock.
#[derive(Debug, Clone, Copy, PartialEq, Eq, Structural, Hash)]
pub struct ClockEvent {
    /// Timestamp before the update.
    pub prev_timestamp: LamportTimestamp,
    /// Timestamp after the update.
    pub new_timestamp: LamportTimestamp,
}

impl ClockEvent {
    /// The update as displayed: `ClockTick(@<prev> -> @<new>)`.
    pub open spec fn display(self) -> Seq<char> {
        "ClockTick("@ + self.prev_timestamp.display() + " -> "@ + self.new_timestamp.display()
            + ")"@
    }

    /// Renders the update as `ClockTick(@<prev> -> @<new>)`.
    pub fn to_display_string(&self) -> (r: String)
        ensures
            r@ == self.display(),
    {
        String::from_str("ClockTick(")
            .concat(self.prev_timestamp.to_display_string().as_str())
            .concat(" -> ")
            .concat(self.new_timestamp.to_display_string().as_str())
            .concat(")")
    }
}

/// One entry of the trace log.
#[derive(Debug, Clone, Copy)]
pub enum SimulationEvent {
    /// Explicit clock advancement.
    ClockTick {
        /// Common metadata.
        meta: EventMetadata,
        /// The clock update.
        event: ClockEvent,
    },
    /// Memory operation.
    Memory {
        /// Common metadata.
        meta: EventMetadata,
        /// The operation.
        operation: MemoryOperation,
    },
    /// Synchronization event.
    Synchronization {
        /// Common metadata.
        meta: EventMetadata,
        /// The synchronization operation.
        sync_event: SyncEvent,
    },
    /// A thread spawned a child.
    ThreadSpawn {
        /// Common metadata.
        meta: EventMetadata,
        /// The child thread.
        child_id: ThreadId,
    },
    /// A thread joined a child.
    ThreadJoin {
        /// Common metadata.
        meta: EventMetadata,
        /// The joined thread.
        child_id: ThreadId,
    },
}

impl SimulationEvent {
    /// The metadata of the event, whatever its variant.
    pub open spec fn meta(self) -> EventMetadata {
        match self {
            SimulationEvent::ClockTick { meta, .. } => meta,
            SimulationEvent::Memory { meta, .. } => meta,
            SimulationEvent::Synchronization { meta, .. } => meta,
            SimulationEvent::ThreadSpawn { meta, .. } => meta,
            SimulationEvent::ThreadJoin { meta, .. } => meta,
        }
    }

    /// Whether `self` happens before `other`: its timestamp is strictly smaller.
    pub open spec fn before(self, other: Self) -> bool {
        self.meta().timestamp.0 < other.meta().timestamp.0
    }

    /// The event as displayed: `[<thread>@<timestamp>] ` and the variant's text.
    pub open spec fn display(self) -> Seq<char> {
        "["@ + self.meta().thread_id.display() + "@"@ + self.meta().timestamp.display() + "] "@
            + match self {
            SimulationEvent::ClockTick { event, .. } => event.display(),
            SimulationEvent::Memory { operation, .. } => operation.display(),
            SimulationEvent::Synchronization { sync_event, .. } => sync_event.display(),
            SimulationEvent::ThreadSpawn { child_id, .. } => "Spawn -> "@ + child_id.display(),
            SimulationEvent::ThreadJoin { child_id, .. } => "Join <- "@ + child_id.display(),
        }
    }

    /// The metadata of the event.
    pub fn metadata(&self) -> (r: &EventMetadata)
        ensures
            *r == self.meta(),
    {
        match self {
            SimulationEvent::ClockTick { meta, .. } => meta,
            SimulationEvent::Memory { meta, .. } => meta,
            SimulationEvent::Synchronization { meta, .. } => meta,
            SimulationEvent::ThreadSpawn { meta, .. } => meta,
            SimulationEvent::ThreadJoin { meta, .. } => meta,
        }
    }

    /// The Lamport timestamp of the event.
    pub fn timestamp(&self) -> (r: LamportTimestamp)
        ensures
            r == self.meta().timestamp,
    {
        self.metadata().timestamp
    }

    /// The thread that generated the event.
    pub fn thread_id(&self) -> (r: ThreadId)
        ensures
            r == self.meta().thread_id,
    {
        self.metadata().thread_id
    }

    /// Whether this event happened before `other` in Lamport order.
    pub fn happens_before(&self, other: &SimulationEvent) -> (r: bool)
        ensures
            r == self.before(*other),
    {
        self.timestamp().0 < other.timestamp().0
    }

    /// Renders the event, e.g. `[T1@@5] MutexLock(3)`.
    pub fn to_display_string(&self) -> (r: String)
        ensures
            r@ == self.display(),
    {
        let meta = self.metadata();
        let head = String::from_str("[")
            .concat(meta.thread_id.to_display_string().as_str())
            .concat("@")
            .concat(meta.timestamp.to_display_string().as_str())
            .concat("] ");
        let body = match self {
            SimulationEvent::ClockTick { event, .. } => event.to_display_string(),
            SimulationEvent::Memory { operation, .. } => operation.to_display_string(),
            SimulationEvent::Synchronization { sync_event, .. } => sync_event.to_display_string(),
            SimulationEvent::ThreadSpawn { child_id, .. } => String::from_str("Spawn -> ").concat(
                child_id.to_display_string().as_str(),
            ),
            SimulationEvent::ThreadJoin { child_id, .. } => String::from_str("Join <- ").concat(
                child_id.to_display_string().as_str(),
            ),
        };
        head.concat(body.as_str())
    }
}

/// Happens-before is a strict partial order: irreflexive, asymmetric and transitive;
/// two events are unordered exactly when their timestamps are equal.
pub proof fn happens_before_is_strict_order(
    a: SimulationEvent,
    b: SimulationEvent,
    c: SimulationEvent,
)
    ensures
        !a.before(a),
        a.before(b) ==> !b.before(a),
        a.before(b) && b.before(c) ==> a.before(c),
        !a.before(b) && !b.before(a) <==> a.meta().timestamp == b.meta().timestamp,
{
}

/// Errors of trace recording.
#[derive(Debug, Clone, Copy, PartialEq, Eq, Structural)]
pub enum TracingError {
    /// The event buffer is full.
    BufferFull,
    /// A thread's timestamp went backwards.
    CausalityViolation {
        /// Least timestamp allowed after the thread's earlier events.
        expected_min: LamportTimestamp,
        /// Timestamp received.
        received: LamportTimestamp,
    },
    /// The thread identifier is not below `MAX_THREADS`.
    InvalidThreadId(u32),
}

impl TracingError {
    /// The error as displayed.
    pub open spec fn display(self) -> Seq<char> {
        match self {
            TracingError::BufferFull => "Event buffer is full"@,
            TracingError::CausalityViolation { expected_min, received } =>
                "Causality violation: expected timestamp >= "@ + decimal(expected_min.0 as nat)
                    + ", got "@ + decimal(received.0 as nat),
            TracingError::InvalidThreadId(tid) => "Invalid thread ID: "@ + decimal(tid as nat),
        }
    }

    /// Renders the error with its fields.
    pub fn to_display_string(&self) -> (r: String)
        ensures
            r@ == self.display(),
    {
        match self {
            TracingError::BufferFull => String::from_str("Event buffer is full"),
            TracingError::CausalityViolation { expected_min, received } => String::from_str(
                "Causality violation: expected timestamp >= ",
            )
                .concat(format_decimal(expected_min.0).as_str())
                .concat(", got ")
                .concat(format_decimal(received.0).as_str()),
            TracingError::InvalidThreadId(tid) => String::from_str("Invalid thread ID: ").concat(
                format_decimal(*tid as u64).as_str(),
            ),
        }
    }
}

/// Storage of a trace log.
pub trait TracerBackend: Send + Sync + core::fmt::Debug {
    /// Capacity in events.
    fn max_events(&self) -> usize;

    /// Appends `event` at the next index; `BufferFull` at capacity.
    fn append_event(&mut self, event: SimulationEvent) -> Result<(), TracingError>;

    /// The event at `index`, if any.
    fn get_event(&self, index: usize) -> Option<SimulationEvent>;

    /// All recorded events, in order.
    fn get_all_events(&self) -> &[SimulationEvent];

    /// Number of recorded events.
    fn event_count(&self) -> usize;

    /// The largest timestamp over all recorded events.
    fn global_timestamp(&self) -> LamportTimestamp;

    /// Raises the global timestamp to `ts` when `ts` is larger.
    fn update_global_timestamp(&mut self, ts: LamportTimestamp);

    /// Forgets every event and resets the global timestamp.
    fn clear(&mut self);

    /// Checks per-thread monotonicity and the global timestamp; the first violation found.
    fn verify_causality(&self) -> Result<(), TracingError>;
}

} // verus!
