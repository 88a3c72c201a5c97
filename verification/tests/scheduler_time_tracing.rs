use std::cmp::Ordering;

use laplace_interfaces::domain::memory::Address;
use laplace_interfaces::domain::scheduler::{
    SchedulerError, SchedulingStrategy, TaskId, ThreadId as SchedThread, ThreadState,
};
use laplace_interfaces::domain::time::{EventPayload, ScheduledEvent};
use laplace_interfaces::domain::tracing::{
    ClockEvent, EventMetadata, FenceType, LamportTimestamp, MemoryOperation, SimulationEvent,
    SyncEvent, ThreadId, TracingError,
};

#[test]
fn scheduler_displays() {
    assert_eq!(SchedThread::new(2).to_display_string(), "Thread(2)");
    assert_eq!(TaskId::new(8).to_display_string(), "Task(8)");
    assert_eq!(ThreadState::Blocked.to_display_string(), "BLOCKED");
    assert!(ThreadState::Runnable.is_runnable());
    assert!(ThreadState::Completed.is_completed());
    assert!(!ThreadState::Blocked.is_runnable());
    assert!(SchedulingStrategy::Production.is_production());
    assert!(SchedulingStrategy::Verification.is_verification());
    assert_eq!(SchedulingStrategy::Verification.to_display_string(), "VERIFICATION");
}

#[test]
fn scheduler_error_display() {
    assert_eq!(
        SchedulerError::InvalidThreadId { thread_id: SchedThread(5), max_threads: 4 }
            .to_display_string(),
        "Invalid thread ID: Thread(5) (max threads: 4)"
    );
    assert_eq!(
        SchedulerError::InvalidThreadState {
            thread_id: SchedThread(1),
            current_state: ThreadState::Blocked,
            expected_state: ThreadState::Runnable,
        }
        .to_display_string(),
        "Thread Thread(1) in invalid state: BLOCKED (expected: RUNNABLE)"
    );
    assert_eq!(
        SchedulerError::QueueFull { max_events: 8, attempted: 9 }.to_display_string(),
        "Event queue full (max: 8, attempted: 9)"
    );
    assert_eq!(
        SchedulerError::TimeOverflow { current_time_ns: 10, delay_ns: 5, max_time_ns: 12 }
            .to_display_string(),
        "Time overflow: 10 + 5 would exceed max time 12"
    );
    assert_eq!(
        SchedulerError::NoRunnableEvents.to_display_string(),
        "No runnable events available"
    );
}

#[test]
fn scheduled_events_order_earliest_first() {
    let a = ScheduledEvent::new(10, 1, 1, EventPayload::Test(0));
    let b = ScheduledEvent::new(20, 0, 0, EventPayload::Test(0));
    let c = ScheduledEvent::new(10, 2, 0, EventPayload::Test(0));
    let d = ScheduledEvent::new(10, 1, 2, EventPayload::Custom("x".to_string()));
    assert_eq!(a.priority_ordering(&b), Ordering::Greater);
    assert_eq!(b.priority_ordering(&a), Ordering::Less);
    assert_eq!(a.priority_ordering(&c), Ordering::Greater);
    assert_eq!(a.priority_ordering(&d), Ordering::Greater);
    assert_eq!(a.priority_ordering(&a.clone()), Ordering::Equal);
    assert!(a > b);
    assert_eq!(a.partial_cmp(&c), Some(Ordering::Greater));
}

#[test]
fn scheduled_events_equal_by_id() {
    let a = ScheduledEvent::new(10, 1, 7, EventPayload::Test(0));
    let b = ScheduledEvent::new(99, 3, 7, EventPayload::Test(5));
    let c = ScheduledEvent::new(10, 1, 8, EventPayload::Test(0));
    assert!(a == b);
    assert!(a != c);
}

#[test]
fn tracing_thread_and_timestamps() {
    let t = ThreadId::new(3);
    assert_eq!(t.as_index(), 3);
    assert_eq!(t.to_display_string(), "T3");

    let mut ts = LamportTimestamp::zero();
    ts.increment();
    assert_eq!(ts.0, 1);
    ts.sync(LamportTimestamp(10));
    assert_eq!(ts.0, 11);
    ts.sync(LamportTimestamp(2));
    assert_eq!(ts.0, 12);
    assert_eq!(ts.to_display_string(), "@12");

    let mut top = LamportTimestamp(u64::MAX);
    top.sync(LamportTimestamp(0));
    assert_eq!(top.0, u64::MAX);
    top.increment();
    assert_eq!(top.0, 0);
}

#[test]
fn traced_operations_display() {
    let r = MemoryOperation::Read { addr: Address(0x20), value: 5, cache_hit: true };
    assert_eq!(r.to_display_string(), "Read(0x20) = 5 [cache]");
    let r = MemoryOperation::Read { addr: Address(0x20), value: 5, cache_hit: false };
    assert_eq!(r.to_display_string(), "Read(0x20) = 5 [main]");
    let w = MemoryOperation::Write { addr: Address(0xab), value: 1, buffered: true };
    assert_eq!(w.to_display_string(), "Write(0xab, 1) [buffered]");
    let w = MemoryOperation::Write { addr: Address(0xab), value: 1, buffered: false };
    assert_eq!(w.to_display_string(), "Write(0xab, 1) [direct]");
    let f = MemoryOperation::BufferFlush { addr: Address(1), value: 2 };
    assert_eq!(f.to_display_string(), "Flush(0x1, 2)");
    let fence = MemoryOperation::Fence { fence_type: FenceType::SeqCst };
    assert_eq!(fence.to_display_string(), "Fence(SeqCst)");
    assert_eq!(SyncEvent::CondVarSignal { cv_id: 4 }.to_display_string(), "CondVarSignal(4)");
    let c = ClockEvent { prev_timestamp: LamportTimestamp(1), new_timestamp: LamportTimestamp(2) };
    assert_eq!(c.to_display_string(), "ClockTick(@1 -> @2)");
}

#[test]
fn simulation_events() {
    let m1 = EventMetadata::new(LamportTimestamp(5), ThreadId::new(1), 0);
    let m2 = EventMetadata::new(LamportTimestamp(7), ThreadId::new(2), 3);
    let e1 = SimulationEvent::Synchronization {
        meta: m1,
        sync_event: SyncEvent::MutexLock { lock_id: 3 },
    };
    let e2 = SimulationEvent::ThreadSpawn { meta: m2, child_id: ThreadId::new(4) };
    assert_eq!(e1.timestamp(), LamportTimestamp(5));
    assert_eq!(e2.thread_id(), ThreadId(2));
    assert_eq!(e2.metadata().seq_num, 3);
    assert!(e1.happens_before(&e2));
    assert!(!e2.happens_before(&e1));
    assert!(!e1.happens_before(&e1));
    assert_eq!(e1.to_display_string(), "[T1@@5] MutexLock(3)");
    assert_eq!(e2.to_display_string(), "[T2@@7] Spawn -> T4");
    let j = SimulationEvent::ThreadJoin { meta: m1, child_id: ThreadId::new(0) };
    assert_eq!(j.to_display_string(), "[T1@@5] Join <- T0");
}

#[test]
fn tracing_error_display() {
    assert_eq!(TracingError::BufferFull.to_display_string(), "Event buffer is full");
    assert_eq!(
        TracingError::CausalityViolation {
            expected_min: LamportTimestamp(4),
            received: LamportTimestamp(2),
        }
        .to_display_string(),
        "Causality violation: expected timestamp >= 4, got 2"
    );
    assert_eq!(TracingError::InvalidThreadId(17).to_display_string(), "Invalid thread ID: 17");
}
