//! Virtual time: clock values, scheduled events and their queue priority, and the
//! clock-state interface.

use vstd::prelude::*;
use std::cmp::Ordering;
use vstd::std_specs::cmp::PartialEqSpecImpl;
use vstd::std_specs::cmp::PartialOrdSpecImpl;
use crate::domain::memory::{Address, CoreId};

verus! {

/// Virtual time in nanoseconds; advances only as events are processed.
pub type VirtualTimeNs = u64;

/// Lamport logical clock value.
pub type LamportClock = u64;

/// Identifier of a scheduled event.
pub type EventId = u64;

/// How virtual time advances.
#[derive(Debug, Clone, Copy, PartialEq, Eq, Structural)]
pub enum TimeMode {
    /// Only when events are processed.
    EventDriven,
    /// Continuously.
    RealTime,
}

/// The action carried by a scheduled event.
#[derive(Debug, Clone, PartialEq, Eq)]
pub enum EventPayload {
    /// Test event with a numeric tag.
    Test(u64),
    /// A buffered write is to be flushed to main memory.
    MemoryWriteSync {
        /// Core that issued the write.
        core: CoreId,
        /// Address written.
        addr: Address,
        /// Value committed.
        value: u64,
    },
    /// A core's whole store buffer is to be drained.
    MemoryFence {
        /// Core issuing the fence.
        core: CoreId,
    },
    /// A task is ready to run.
    TaskReady {
        /// The task.
        task_id: String,
    },
    /// A tenant's watchdog timer expired.
    WatchdogTimeout {
        /// The tenant.
        tenant_id: String,
    },
    /// Application-defined event.
    Custom(String),
}

/// An event of the priority queue; earlier time, then lower Lamport clock, then lower
/// identifier comes first.
#[derive(Debug, Clone)]
pub struct ScheduledEvent {
    /// Virtual time at which the event fires.
    pub scheduled_at_ns: VirtualTimeNs,
    /// Lamport clock at scheduling time; second key.
    pub lamport: LamportClock,
    /// Unique event identifier; third key.
    pub event_id: EventId,
    /// The action to execute.
    pub payload: EventPayload,
}

/// `Less`, `Equal` or `Greater` as `a` is below, equal to or above `b`.
pub open spec fn order_of(a: u64, b: u64) -> Ordering {
    if a < b {
        Ordering::Less
    } else if a == b {
        Ordering::Equal
    } else {
        Ordering::Greater
    }
}

/// `Less`, `Equal` or `Greater` as `a` is below, equal to or above `b`.
fn compare_u64(a: u64, b: u64) -> (r: Ordering)
    ensures
        r == order_of(a, b),
{
    if a < b {
        Ordering::Less
    } else if a == b {
        Ordering::Equal
    } else {
        Ordering::Greater
    }
}

impl ScheduledEvent {
    /// Queue order of `self` against `other`, for a max-heap: the key triple
    /// (time, Lamport clock, identifier) compared in reverse, so that the earliest
    /// event is the greatest.
    pub open spec fn queue_order(self, other: Self) -> Ordering {
        match order_of(other.scheduled_at_ns, self.scheduled_at_ns) {
            Ordering::Equal => match order_of(other.lamport, self.lamport) {
                Ordering::Equal => order_of(other.event_id, self.event_id),
                o => o,
            },
            o => o,
        }
    }

    /// Creates an event.
    pub fn new(
        scheduled_at_ns: VirtualTimeNs,
        lamport: LamportClock,
        event_id: EventId,
        payload: EventPayload,
    ) -> (r: Self)
        ensures
            r.scheduled_at_ns == scheduled_at_ns,
            r.lamport == lamport,
            r.event_id == event_id,
            r.payload == payload,
    {
        ScheduledEvent { scheduled_at_ns, lamport, event_id, payload }
    }

    /// Queue order of `self` against `other` (see `queue_order`).
    pub fn priority_ordering(&self, other: &Self) -> (r: Ordering)
        ensures
            r == self.queue_order(*other),
    {
        match compare_u64(other.scheduled_at_ns, self.scheduled_at_ns) {
            Ordering::Equal => match compare_u64(other.lamport, self.lamport) {
                Ordering::Equal => compare_u64(other.event_id, self.event_id),
                o => o,
            },
            o => o,
        }
    }
}

impl PartialEq for ScheduledEvent {
    /// Two events are equal when their identifiers are.
    fn eq(&self, other: &Self) -> (r: bool) {
        self.event_id == other.event_id
    }
}

impl PartialEqSpecImpl for ScheduledEvent {
    open spec fn obeys_eq_spec() -> bool {
        true
    }

    open spec fn eq_spec(&self, other: &Self) -> bool {
        self.event_id == other.event_id
    }
}

impl Eq for ScheduledEvent {}

impl PartialOrd for ScheduledEvent {
    /// Always `Some` of the queue order.
    fn partial_cmp(&self, other: &Self) -> (r: Option<Ordering>) {
        Some(self.priority_ordering(other))
    }
}

impl PartialOrdSpecImpl for ScheduledEvent {
    open spec fn obeys_partial_cmp_spec() -> bool {
        true
    }

    open spec fn partial_cmp_spec(&self, other: &Self) -> Option<Ordering> {
        Some(self.queue_order(*other))
    }
}

/// The queue order is a total order on the key triple: it is antisymmetric, gives
/// `Equal` exactly on equal keys, is transitive, and puts an event with an earlier
/// time above one with a later time, whatever their other keys.
pub proof fn queue_order_is_total(a: ScheduledEvent, b: ScheduledEvent, c: ScheduledEvent)
    ensures
        (a.queue_order(b) == Ordering::Less) <==> (b.queue_order(a) == Ordering::Greater),
        (a.queue_order(b) == Ordering::Equal) <==> (a.scheduled_at_ns == b.scheduled_at_ns
            && a.lamport == b.lamport && a.event_id == b.event_id),
        a.queue_order(b) == Ordering::Less && b.queue_order(c) == Ordering::Less
            ==> a.queue_order(c) == Ordering::Less,
        a.scheduled_at_ns < b.scheduled_at_ns ==> a.queue_order(b) == Ordering::Greater,
        a.scheduled_at_ns == b.scheduled_at_ns && a.lamport < b.lamport ==> a.queue_order(b)
            == Ordering::Greater,
{
}

/// Clock state of a simulation: virtual time, Lamport clock and the event queue.
pub trait ClockBackend {
    /// Current virtual time; never below a value returned before.
    fn current_time(&self) -> VirtualTimeNs;

    /// Current Lamport clock.
    fn current_lamport(&self) -> LamportClock;

    /// Sets virtual time; the caller keeps it monotonic.
    fn set_time(&mut self, time: VirtualTimeNs);

    /// Increments the Lamport clock and returns the new value.
    fn increment_lamport(&mut self) -> LamportClock;

    /// Resets the Lamport clock to zero.
    fn reset_lamport(&mut self);

    /// Enqueues `event`; false when a bounded queue is full.
    fn push_event(&mut self, event: ScheduledEvent) -> bool;

    /// Dequeues the event of highest priority.
    fn pop_event(&mut self) -> Option<ScheduledEvent>;

    /// Whether the queue is empty.
    fn is_empty(&self) -> bool;

    /// Number of queued events.
    fn queue_len(&self) -> usize;

    /// Resets virtual time, Lamport clock and queue.
    fn reset(&mut self);
}

} // verus!
