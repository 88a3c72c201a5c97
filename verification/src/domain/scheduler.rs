//! Thread scheduling: thread and task identifiers, thread lifecycle states,
//! the event-selection strategy, scheduler errors and the state-storage interface.

use vstd::prelude::*;
use crate::text::{decimal, format_decimal};

verus! {

/// Scheduler thread identifier, a zero-based index below the backend's thread count.
#[derive(Debug, Clone, Copy, PartialEq, Eq, Structural, Hash, PartialOrd, Ord)]
pub struct ThreadId(pub usize);

impl ThreadId {
    /// The thread as displayed: `Thread(<index>)`.
    pub open spec fn display(self) -> Seq<char> {
        "Thread("@ + decimal(self.0 as nat) + ")"@
    }

    /// Wraps a zero-based thread index.
    pub fn new(id: usize) -> (r: Self)
        ensures
            r.0 == id,
    {
        ThreadId(id)
    }

    /// The raw thread index.
    pub fn as_usize(self) -> (r: usize)
        ensures
            r == self.0,
    {
        self.0
    }

    /// Renders the thread as `Thread(<index>)`.
    pub fn to_display_string(&self) -> (r: String)
        ensures
            r@ == self.display(),
    {
        String::from_str("Thread(").concat(format_decimal(self.0 as u64).as_str()).concat(")")
    }
}

/// Logical task identifier.
#[derive(Debug, Clone, Copy, PartialEq, Eq, Structural, Hash, PartialOrd, Ord)]
pub struct TaskId(pub usize);

impl TaskId {
    /// The task as displayed: `Task(<index>)`.
    pub open spec fn display(self) -> Seq<char> {
        "Task("@ + decimal(self.0 as nat) + ")"@
    }

    /// Wraps a task index.
    pub fn new(id: usize) -> (r: Self)
        ensures
            r.0 == id,
    {
        TaskId(id)
    }

    /// The raw task index.
    pub fn as_usize(self) -> (r: usize)
        ensures
            r == self.0,
    {
        self.0
    }

    /// Renders the task as `Task(<index>)`.
    pub fn to_display_string(&self) -> (r: String)
        ensures
            r@ == self.display(),
    {
        String::from_str("Task(").concat(format_decimal(self.0 as u64).as_str()).concat(")")
    }
}

/// Lifecycle state of a scheduled thread.
#[derive(Debug, Clone, Copy, PartialEq, Eq, Structural, Hash)]
pub enum ThreadState {
    /// Eligible to execute events.
    Runnable,
    /// Waiting for a resource or dependency.
    Blocked,
    /// Finished.
    Completed,
}

impl ThreadState {
    /// The state as displayed.
    pub open spec fn display(self) -> Seq<char> {
        match self {
            ThreadState::Runnable => "RUNNABLE"@,
            ThreadState::Blocked => "BLOCKED"@,
            ThreadState::Completed => "COMPLETED"@,
        }
    }

    /// True only for `Runnable`.
    pub fn is_runnable(self) -> (r: bool)
        ensures
            r <==> self == ThreadState::Runnable,
    {
        match self {
            ThreadState::Runnable => true,
            _ => false,
        }
    }

    /// True only for `Blocked`.
    pub fn is_blocked(self) -> (r: bool)
        ensures
            r <==> self == ThreadState::Blocked,
    {
        match self {
            ThreadState::Blocked => true,
            _ => false,
        }
    }

    /// True only for `Completed`.
    pub fn is_completed(self) -> (r: bool)
        ensures
            r <==> self == ThreadState::Completed,
    {
        match self {
            ThreadState::Completed => true,
            _ => false,
        }
    }

    /// Renders `RUNNABLE`, `BLOCKED` or `COMPLETED`.
    pub fn to_display_string(&self) -> (r: String)
        ensures
            r@ == self.display(),
    {
        match self {
            ThreadState::Runnable => String::from_str("RUNNABLE"),
            ThreadState::Blocked => String::from_str("BLOCKED"),
            ThreadState::Completed => String::from_str("COMPLETED"),
        }
    }
}

/// Event-selection strategy of the scheduler.
#[derive(Debug, Clone, Copy, PartialEq, Eq, Structural)]
pub enum SchedulingStrategy {
    /// Deterministic: ordered by time, Lamport clock and event identifier.
    Production,
    /// Non-deterministic: exhaustive exploration of interleavings.
    Verification,
}

impl SchedulingStrategy {
    /// The strategy as displayed.
    pub open spec fn display(self) -> Seq<char> {
        match self {
            SchedulingStrategy::Production => "PRODUCTION"@,
            SchedulingStrategy::Verification => "VERIFICATION"@,
        }
    }

    /// True only for `Production`.
    pub fn is_production(self) -> (r: bool)
        ensures
            r <==> self == SchedulingStrategy::Production,
    {
        match self {
            SchedulingStrategy::Production => true,
            SchedulingStrategy::Verification => false,
        }
    }

    /// True only for `Verification`.
    pub fn is_verification(self) -> (r: bool)
        ensures
            r <==> self == SchedulingStrategy::Verification,
    {
        match self {
            SchedulingStrategy::Verification => true,
            SchedulingStrategy::Production => false,
        }
    }

    /// Renders `PRODUCTION` or `VERIFICATION`.
    pub fn to_display_string(&self) -> (r: String)
        ensures
            r@ == self.display(),
    {
        match self {
            SchedulingStrategy::Production => String::from_str("PRODUCTION"),
            SchedulingStrategy::Verification => String::from_str("VERIFICATION"),
        }
    }
}

/// Errors of scheduler operations.
#[derive(Debug, Clone, PartialEq, Eq, Structural)]
pub enum SchedulerError {
    /// The thread identifier is not below the backend's thread count.
    InvalidThreadId {
        /// The out-of-range thread.
        thread_id: ThreadId,
        /// The backend's thread count.
        max_threads: usize,
    },
    /// The thread is not in the state the operation requires.
    InvalidThreadState {
        /// The thread.
        thread_id: ThreadId,
        /// Its actual state.
        current_state: ThreadState,
        /// The state required.
        expected_state: ThreadState,
    },
    /// The event queue is at capacity.
    QueueFull {
        /// Queue capacity.
        max_events: usize,
        /// Event count attempted.
        attempted: usize,
    },
    /// `current_time_ns + delay_ns` would pass the maximum virtual time.
    TimeOverflow {
        /// Current virtual time, in nanoseconds.
        current_time_ns: u64,
        /// Requested delay, in nanoseconds.
        delay_ns: u64,
        /// Maximum virtual time, in nanoseconds.
        max_time_ns: u64,
    },
    /// No runnable event in the current cycle.
    NoRunnableEvents,
}

impl SchedulerError {
    /// The error as displayed.
    pub open spec fn display(self) -> Seq<char> {
        match self {
            SchedulerError::InvalidThreadId { thread_id, max_threads } =>
                "Invalid thread ID: "@ + thread_id.display() + " (max threads: "@ + decimal(
                    max_threads as nat,
                ) + ")"@,
            SchedulerError::InvalidThreadState { thread_id, current_state, expected_state } =>
                "Thread "@ + thread_id.display() + " in invalid state: "@ + current_state.display()
                    + " (expected: "@ + expected_state.display() + ")"@,
            SchedulerError::QueueFull { max_events, attempted } =>
                "Event queue full (max: "@ + decimal(max_events as nat) + ", attempted: "@
                    + decimal(attempted as nat) + ")"@,
            SchedulerError::TimeOverflow { current_time_ns, delay_ns, max_time_ns } =>
                "Time overflow: "@ + decimal(current_time_ns as nat) + " + "@ + decimal(
                    delay_ns as nat,
                ) + " would exceed max time "@ + decimal(max_time_ns as nat),
            SchedulerError::NoRunnableEvents => "No runnable events available"@,
        }
    }

    /// Renders the error with its fields.
    pub fn to_display_string(&self) -> (r: String)
        ensures
            r@ == self.display(),
    {
        match self {
            SchedulerError::InvalidThreadId { thread_id, max_threads } => String::from_str(
                "Invalid thread ID: ",
            )
                .concat(thread_id.to_display_string().as_str())
                .concat(" (max threads: ")
                .concat(format_decimal(*max_threads as u64).as_str())
                .concat(")"),
            SchedulerError::InvalidThreadState { thread_id, current_state, expected_state } =>
                String::from_str("Thread ")
                .concat(thread_id.to_display_string().as_str())
                .concat(" in invalid state: ")
                .concat(current_state.to_display_string().as_str())
                .concat(" (expected: ")
                .concat(expected_state.to_display_string().as_str())
                .concat(")"),
            SchedulerError::QueueFull { max_events, attempted } => String::from_str(
                "Event queue full (max: ",
            )
                .concat(format_decimal(*max_events as u64).as_str())
                .concat(", attempted: ")
                .concat(format_decimal(*attempted as u64).as_str())
                .concat(")"),
            SchedulerError::TimeOverflow { current_time_ns, delay_ns, max_time_ns } =>
                String::from_str("Time overflow: ")
                .concat(format_decimal(*current_time_ns).as_str())
                .concat(" + ")
                .concat(format_decimal(*delay_ns).as_str())
                .concat(" would exceed max time ")
                .concat(format_decimal(*max_time_ns).as_str()),
            SchedulerError::NoRunnableEvents => String::from_str("No runnable events available"),
        }
    }
}

/// Identifier of an event tracked by the scheduler.
pub type EventId = u64;

/// Storage of each thread's lifecycle state and of which thread owns which event.
pub trait SchedulerBackend: Sized {
    /// A backend for `num_threads` threads, all `Runnable`.
    fn new(num_threads: usize) -> Self;

    /// Number of threads; constant over the backend's lifetime.
    fn max_threads(&self) -> usize;

    /// The state of `thread_id`, or `InvalidThreadId` when out of range.
    fn get_state(&self, thread_id: ThreadId) -> Result<ThreadState, SchedulerError>;

    /// Sets the state of `thread_id` and returns the previous one.
    fn set_state(&self, thread_id: ThreadId, new_state: ThreadState) -> Result<
        ThreadState,
        SchedulerError,
    >;

    /// Whether `thread_id` is `Runnable`; an unknown thread is not. The provided
    /// body answers from one reading of `get_state`.
    fn is_runnable(&self, thread_id: ThreadId) -> (r: bool)
        default_ensures
            exists|s: Result<ThreadState, SchedulerError>|
                #[trigger] call_ensures(Self::get_state, (self, thread_id), s) && (r <==> s
                    == Ok::<ThreadState, SchedulerError>(ThreadState::Runnable)),
    {
        match self.get_state(thread_id) {
            Ok(state) => state.is_runnable(),
            Err(_) => false,
        }
    }

    /// Numbers of runnable, blocked and completed threads.
    fn state_counts(&self) -> (usize, usize, usize);

    /// Makes every thread `Runnable`.
    fn reset(&self);

    /// Records that `thread_id` owns `event_id`.
    fn register_event(&self, event_id: EventId, thread_id: ThreadId) -> Result<(), SchedulerError>;

    /// The thread owning `event_id`, if registered.
    fn get_event_owner(&self, event_id: EventId) -> Option<ThreadId>;

    /// Forgets the owner of `event_id`.
    fn unregister_event(&self, event_id: EventId);

    /// Forgets every event registration.
    fn clear_events(&self);

    /// Number of registered events whose owner is `Runnable`.
    fn count_runnable_events(&self) -> usize;
}

} // verus!
