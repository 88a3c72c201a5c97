//! Kraken load-testing domain: virtual user states, chaos schedules and ramp-up
//! profiles.

use vstd::prelude::*;
use crate::error::kraken::{KrakenError, KrakenResult};
use crate::text::{decimal, format_decimal};

verus! {

/// Nanoseconds in one second.
pub const NANOS_PER_SEC: u64 = 1000000000u64;

/// One more than the largest number of nanoseconds a `Duration` can hold.
pub open spec fn duration_limit() -> nat {
    18446744073709551616nat * 1000000000nat
}

/// A span of time with nanosecond precision, up to `u64::MAX` seconds plus
/// 999 999 999 nanoseconds.
#[derive(Debug, Clone, Copy, PartialEq, Eq, Structural, PartialOrd, Ord, Hash)]
pub struct Duration {
    nanos: u128,
}

impl View for Duration {
    type V = nat;

    /// The span in nanoseconds.
    closed spec fn view(&self) -> nat {
        self.nanos as nat
    }
}

impl Duration {
    #[verifier::type_invariant]
    spec fn in_range(self) -> bool {
        self.nanos < duration_limit()
    }

    /// Every duration is below the limit.
    pub fn check_bounded(&self)
        ensures
            self@ < duration_limit(),
    {
        proof {
            use_type_invariant(self);
        }
    }

    /// The empty duration.
    pub fn zero() -> (r: Self)
        ensures
            r@ == 0,
    {
        Duration { nanos: 0 }
    }

    /// A duration of `secs` whole seconds.
    pub fn from_secs(secs: u64) -> (r: Self)
        ensures
            r@ == secs * 1000000000,
    {
        assert(secs * 1000000000 < duration_limit()) by (nonlinear_arith)
            requires
                secs < 18446744073709551616nat,
        ;
        Duration { nanos: (secs as u128) * 1000000000u128 }
    }

    /// A duration of `secs` seconds and `nanos` nanoseconds, the nanoseconds carrying
    /// into seconds.
    pub fn new(secs: u64, nanos: u32) -> (r: Self)
        requires
            secs * 1000000000 + nanos < duration_limit(),
        ensures
            r@ == secs * 1000000000 + nanos,
    {
        assert(secs * 1000000000 <= 18446744073709551615 * 1000000000) by (nonlinear_arith)
            requires
                secs <= 18446744073709551615nat,
        ;
        Duration { nanos: (secs as u128) * 1000000000u128 + (nanos as u128) }
    }

    /// Whole seconds in the duration.
    pub fn as_secs(&self) -> (r: u64)
        ensures
            r == self@ / 1000000000,
    {
        proof {
            use_type_invariant(self);
        }
        assert(self.nanos / 1000000000 < 18446744073709551616) by (nonlinear_arith)
            requires
                self.nanos < 18446744073709551616nat * 1000000000nat,
        ;
        (self.nanos / 1000000000u128) as u64
    }

    /// The nanoseconds beyond the whole seconds.
    pub fn subsec_nanos(&self) -> (r: u32)
        ensures
            r == self@ % 1000000000,
    {
        (self.nanos % 1000000000u128) as u32
    }

    /// The duration in nanoseconds.
    pub fn as_nanos(&self) -> (r: u128)
        ensures
            r == self@,
    {
        self.nanos
    }
}

/// `ceil(n / d)` for `d > 0`.
pub open spec fn ceil_div(n: int, d: int) -> int {
    (n + d - 1) / d
}

/// `ceil(a * b / c)`, computed without overflow for `a < c < 2^94`.
fn mul_div_ceil(a: u128, b: u64, c: u128) -> (r: u64)
    requires
        a < c,
        c < 0x4000_0000_0000_0000_0000_0000u128,
    ensures
        r == ceil_div(a * b, c as int),
        r <= b,
{
    if b == 0 {
        assert(a * b == 0) by (nonlinear_arith)
            requires
                b == 0,
        ;
        assert(ceil_div(0, c as int) == 0) by (nonlinear_arith)
            requires
                c > 0,
        ;
        return 0;
    }
    let bh: u128 = (b / 4294967296u64) as u128;
    let bl: u128 = (b % 4294967296u64) as u128;
    assert(a * bh < 0x4000_0000_0000_0000_0000_0000_0000_0000) by (nonlinear_arith)
        requires
            a < 0x4000_0000_0000_0000_0000_0000int,
            bh < 4294967296int,
    ;
    assert(a * bl < 0x4000_0000_0000_0000_0000_0000_0000_0000) by (nonlinear_arith)
        requires
            a < 0x4000_0000_0000_0000_0000_0000int,
            bl < 4294967296int,
    ;
    let p1 = a * bh;
    let q1 = p1 / c;
    let r1 = p1 % c;
    assert(r1 * 4294967296 < 0x4000_0000_0000_0000_0000_0000_0000_0000) by (nonlinear_arith)
        requires
            r1 < 0x4000_0000_0000_0000_0000_0000int,
    ;
    let s = r1 * 4294967296u128 + a * bl;
    let q2 = s / c;
    let r2 = s % c;
    proof {
        assert(p1 == c * q1 + r1) by (nonlinear_arith)
            requires
                c > 0,
                q1 == p1 / c,
                r1 == p1 % c,
        ;
        assert(s == c * q2 + r2) by (nonlinear_arith)
            requires
                c > 0,
                q2 == s / c,
                r2 == s % c,
        ;
        assert(b == bh * 4294967296 + bl);
        assert(a * b == c * (q1 * 4294967296 + q2) + r2) by (nonlinear_arith)
            requires
                b == bh * 4294967296 + bl,
                p1 == a * bh,
                p1 == c * q1 + r1,
                s == r1 * 4294967296 + a * bl,
                s == c * q2 + r2,
        ;
        assert(q1 * 4294967296 + q2 < b) by (nonlinear_arith)
            requires
                a * b == c * (q1 * 4294967296 + q2) + r2,
                0 <= r2,
                a < c,
                0 <= a,
                b > 0,
        ;
        assert(ceil_div(a * b, c as int) == if r2 > 0 {
            q1 * 4294967296 + q2 + 1
        } else {
            q1 * 4294967296 + q2
        }) by (nonlinear_arith)
            requires
                a * b == c * (q1 * 4294967296 + q2) + r2,
                0 <= r2 < c,
                q1 >= 0,
                q2 >= 0,
        ;
    }
    let fl = (q1 * 4294967296u128 + q2) as u64;
    if r2 > 0 {
        fl + 1
    } else {
        fl
    }
}

/// Virtual user state machine states.
#[derive(Debug, Clone, Copy, PartialEq, Eq, Structural, Hash)]
pub enum VUState {
    /// Awaiting spawn.
    Idle,
    /// Planning the next action.
    Thinking,
    /// Sending a request.
    Requesting,
    /// Validating a response.
    Validating,
    /// Waiting for a timeout or event.
    Waiting,
    /// Terminal state.
    Finished,
}

impl VUState {
    /// The state's name, as displayed.
    pub open spec fn display(self) -> Seq<char> {
        match self {
            VUState::Idle => "Idle"@,
            VUState::Thinking => "Thinking"@,
            VUState::Requesting => "Requesting"@,
            VUState::Validating => "Validating"@,
            VUState::Waiting => "Waiting"@,
            VUState::Finished => "Finished"@,
        }
    }

    /// Whether this is the terminal `Finished` state.
    pub fn is_terminal(&self) -> (r: bool)
        ensures
            r == (*self == VUState::Finished),
    {
        match self {
            VUState::Finished => true,
            _ => false,
        }
    }

    /// Whether the scheduler must not run a VU in this state (`Requesting`, `Waiting`).
    pub fn is_blocking(&self) -> (r: bool)
        ensures
            r == (*self == VUState::Requesting || *self == VUState::Waiting),
    {
        match self {
            VUState::Requesting | VUState::Waiting => true,
            _ => false,
        }
    }

    /// Renders the state's name.
    pub fn to_display_string(&self) -> (r: String)
        ensures
            r@ == self.display(),
    {
        match self {
            VUState::Idle => String::from_str("Idle"),
            VUState::Thinking => String::from_str("Thinking"),
            VUState::Requesting => String::from_str("Requesting"),
            VUState::Validating => String::from_str("Validating"),
            VUState::Waiting => String::from_str("Waiting"),
            VUState::Finished => String::from_str("Finished"),
        }
    }
}

/// Chaos event for deterministic failure injection; time windows are in
/// milliseconds, start inclusive and end exclusive.
#[derive(Debug, PartialEq, Eq)]
pub enum ChaosEvent {
    /// Adds `extra_latency_ms` to every request while active.
    LatencySpike { start_ms: u64, end_ms: u64, extra_latency_ms: u64 },
    /// Cuts the VUs whose ids fall in `target_vu_range` off the network while active.
    NetworkPartition { start_ms: u64, end_ms: u64, target_vu_range: std::ops::Range<u64> },
}

impl Clone for ChaosEvent {
    /// An identical event.
    fn clone(&self) -> (r: Self)
        ensures
            r == *self,
    {
        match self {
            ChaosEvent::LatencySpike { start_ms, end_ms, extra_latency_ms } => ChaosEvent::LatencySpike {
                start_ms: *start_ms,
                end_ms: *end_ms,
                extra_latency_ms: *extra_latency_ms,
            },
            ChaosEvent::NetworkPartition { start_ms, end_ms, target_vu_range } => ChaosEvent::NetworkPartition {
                start_ms: *start_ms,
                end_ms: *end_ms,
                target_vu_range: std::ops::Range { start: target_vu_range.start, end: target_vu_range.end },
            },
        }
    }
}

impl ChaosEvent {
    /// Whether the event's window contains `t`.
    pub open spec fn active_at(self, t: u64) -> bool {
        match self {
            ChaosEvent::LatencySpike { start_ms, end_ms, .. } => start_ms <= t < end_ms,
            ChaosEvent::NetworkPartition { start_ms, end_ms, .. } => start_ms <= t < end_ms,
        }
    }

    /// Whether the event is a partition covering `vu`.
    pub open spec fn covers(self, vu: u64) -> bool {
        match self {
            ChaosEvent::NetworkPartition { target_vu_range, .. } => target_vu_range.start <= vu
                < target_vu_range.end,
            _ => false,
        }
    }

    /// Whether the event applies to `vu` at time `t`: spikes apply to every VU,
    /// partitions to the VUs they cover.
    pub open spec fn applies(self, t: u64, vu: u64) -> bool {
        self.active_at(t) && match self {
            ChaosEvent::LatencySpike { .. } => true,
            ChaosEvent::NetworkPartition { .. } => self.covers(vu),
        }
    }

    /// The latency an event adds at time `t`: its extra latency if it is an active spike.
    pub open spec fn latency_at(self, t: u64) -> nat {
        match self {
            ChaosEvent::LatencySpike { extra_latency_ms, .. } => if self.active_at(t) {
                extra_latency_ms as nat
            } else {
                0
            },
            _ => 0,
        }
    }

    /// Whether this event is active at `current_time_ms`.
    pub fn is_active_at_ms(&self, current_time_ms: u64) -> (r: bool)
        ensures
            r == self.active_at(current_time_ms),
    {
        match self {
            ChaosEvent::LatencySpike { start_ms, end_ms, .. } => current_time_ms >= *start_ms
                && current_time_ms < *end_ms,
            ChaosEvent::NetworkPartition { start_ms, end_ms, .. } => current_time_ms >= *start_ms
                && current_time_ms < *end_ms,
        }
    }

    /// Whether this is a partition covering `vu_id`.
    pub fn affects_vu_id(&self, vu_id: u64) -> (r: bool)
        ensures
            r == self.covers(vu_id),
    {
        match self {
            ChaosEvent::NetworkPartition { target_vu_range, .. } => target_vu_range.start <= vu_id
                && vu_id < target_vu_range.end,
            _ => false,
        }
    }
}

/// The events of `events` that apply to `vu` at `t`, in order.
pub open spec fn active_events(events: Seq<ChaosEvent>, t: u64, vu: u64) -> Seq<ChaosEvent>
    decreases events.len(),
{
    if events.len() == 0 {
        Seq::empty()
    } else {
        let rest = active_events(events.drop_last(), t, vu);
        if events.last().applies(t, vu) {
            rest.push(events.last())
        } else {
            rest
        }
    }
}

/// Total latency added at `t` by the events of `events`.
pub open spec fn added_latency(events: Seq<ChaosEvent>, t: u64) -> nat
    decreases events.len(),
{
    if events.len() == 0 {
        0
    } else {
        added_latency(events.drop_last(), t) + events.last().latency_at(t)
    }
}

/// Whether some event of `events` partitions `vu` off at `t`.
pub open spec fn partitioned(events: Seq<ChaosEvent>, t: u64, vu: u64) -> bool {
    exists|i: int|
        0 <= i < events.len() && (#[trigger] events[i]) is NetworkPartition && events[i].active_at(t)
            && events[i].covers(vu)
}

/// Ordered collection of chaos events.
#[derive(Debug, Clone, Default)]
pub struct ChaosSchedule {
    events: Vec<ChaosEvent>,
}

impl View for ChaosSchedule {
    type V = Seq<ChaosEvent>;

    /// The scheduled events, in order.
    closed spec fn view(&self) -> Seq<ChaosEvent> {
        self.events@
    }
}

proof fn lemma_added_latency_prefix(events: Seq<ChaosEvent>, t: u64, i: int)
    requires
        0 <= i <= events.len(),
    ensures
        added_latency(events.take(i), t) <= added_latency(events, t),
    decreases events.len(),
{
    if i < events.len() {
        assert(events.drop_last().take(i) =~= events.take(i));
        lemma_added_latency_prefix(events.drop_last(), t, i);
    } else {
        assert(events.take(i) =~= events);
    }
}

impl ChaosSchedule {
    /// An empty schedule.
    pub fn new() -> (r: Self)
        ensures
            r@ == Seq::<ChaosEvent>::empty(),
    {
        ChaosSchedule { events: Vec::new() }
    }

    /// Appends `event` to the schedule.
    pub fn add_event(&mut self, event: ChaosEvent)
        ensures
            final(self)@ == old(self)@.push(event),
    {
        self.events.push(event);
    }

    /// A schedule holding `events`, in order.
    pub fn from_events(events: Vec<ChaosEvent>) -> (r: Self)
        ensures
            r@ == events@,
    {
        ChaosSchedule { events }
    }

    /// The events that apply to `vu_id` at `current_time_ms`, in schedule order.
    pub fn get_active_events(&self, current_time_ms: u64, vu_id: u64) -> (r: Vec<&ChaosEvent>)
        ensures
            r@.map_values(|e: &ChaosEvent| *e) == active_events(self@, current_time_ms, vu_id),
    {
        let mut out: Vec<&ChaosEvent> = Vec::new();
        let mut i: usize = 0;
        while i < self.events.len()
            invariant
                i <= self.events@.len(),
                out@.map_values(|e: &ChaosEvent| *e) == active_events(
                    self.events@.take(i as int),
                    current_time_ms,
                    vu_id,
                ),
            decreases self.events@.len() - i,
        {
            let ev = &self.events[i];
            let applies = ev.is_active_at_ms(current_time_ms) && match ev {
                ChaosEvent::LatencySpike { .. } => true,
                ChaosEvent::NetworkPartition { .. } => ev.affects_vu_id(vu_id),
            };
            let ghost before = out@;
            if applies {
                out.push(ev);
            }
            proof {
                assert(self.events@.take(i + 1).drop_last() =~= self.events@.take(i as int));
                assert(self.events@.take(i + 1).last() == self.events@[i as int]);
                if applies {
                    assert(out@.map_values(|e: &ChaosEvent| *e) =~= before.map_values(
                        |e: &ChaosEvent| *e,
                    ).push(self.events@[i as int]));
                }
            }
            i = i + 1;
        }
        assert(self.events@.take(self.events@.len() as int) =~= self.events@);
        out
    }

    /// Whether `vu_id` is partitioned off at `current_time_ms`.
    pub fn is_partitioned(&self, current_time_ms: u64, vu_id: u64) -> (r: bool)
        ensures
            r == partitioned(self@, current_time_ms, vu_id),
    {
        let mut i: usize = 0;
        while i < self.events.len()
            invariant
                i <= self.events@.len(),
                forall|j: int|
                    0 <= j < i ==> !((#[trigger] self.events@[j]) is NetworkPartition
                        && self.events@[j].active_at(current_time_ms) && self.events@[j].covers(
                        vu_id,
                    )),
            decreases self.events@.len() - i,
        {
            let ev = &self.events[i];
            let is_partition = match ev {
                ChaosEvent::NetworkPartition { .. } => true,
                _ => false,
            };
            if is_partition && ev.is_active_at_ms(current_time_ms) && ev.affects_vu_id(vu_id) {
                return true;
            }
            i = i + 1;
        }
        false
    }

    /// Total extra latency, in milliseconds, from the spikes active at `current_time_ms`.
    pub fn total_extra_latency_ms(&self, current_time_ms: u64) -> (r: u64)
        requires
            added_latency(self@, current_time_ms) <= u64::MAX,
        ensures
            r == added_latency(self@, current_time_ms),
    {
        let mut total: u64 = 0;
        let mut i: usize = 0;
        while i < self.events.len()
            invariant
                i <= self.events@.len(),
                added_latency(self.events@, current_time_ms) <= u64::MAX,
                total == added_latency(self.events@.take(i as int), current_time_ms),
            decreases self.events@.len() - i,
        {
            proof {
                assert(self.events@.take(i + 1).drop_last() =~= self.events@.take(i as int));
                lemma_added_latency_prefix(self.events@, current_time_ms, i + 1);
            }
            let ev = &self.events[i];
            match ev {
                ChaosEvent::LatencySpike { extra_latency_ms, .. } => {
                    if ev.is_active_at_ms(current_time_ms) {
                        total = total + *extra_latency_ms;
                    }
                },
                _ => {},
            }
            i = i + 1;
        }
        assert(self.events@.take(self.events@.len() as int) =~= self.events@);
        total
    }

    /// Number of scheduled events.
    pub fn event_count(&self) -> (r: usize)
        ensures
            r == self@.len(),
    {
        self.events.len()
    }
}

/// Sum of the latencies that the spikes of `events` add; partitions add none.
pub open spec fn spike_sum(events: Seq<ChaosEvent>) -> nat
    decreases events.len(),
{
    if events.len() == 0 {
        0
    } else {
        spike_sum(events.drop_last()) + match events.last() {
            ChaosEvent::LatencySpike { extra_latency_ms, .. } => extra_latency_ms as nat,
            _ => 0,
        }
    }
}

/// A VU is partitioned off exactly when one of the events active for it is a partition,
/// and the total extra latency is the sum over the spikes active for any VU.
pub proof fn chaos_queries_agree(events: Seq<ChaosEvent>, t: u64, vu: u64)
    ensures
        partitioned(events, t, vu) <==> exists|k: int|
            0 <= k < active_events(events, t, vu).len() && (#[trigger] active_events(
                events,
                t,
                vu,
            )[k]) is NetworkPartition,
        added_latency(events, t) == spike_sum(active_events(events, t, vu)),
    decreases events.len(),
{
    if events.len() > 0 {
        let rest = events.drop_last();
        chaos_queries_agree(rest, t, vu);
        let ar = active_events(rest, t, vu);
        let a = active_events(events, t, vu);
        let e = events.last();
        if e.applies(t, vu) {
            assert(a.drop_last() =~= ar);
        }
        if partitioned(events, t, vu) {
            let i = choose|i: int|
                0 <= i < events.len() && (#[trigger] events[i]) is NetworkPartition
                    && events[i].active_at(t) && events[i].covers(vu);
            if i < events.len() - 1 {
                assert(rest[i] == events[i]);
                assert(partitioned(rest, t, vu));
                let k = choose|k: int| 0 <= k < ar.len() && (#[trigger] ar[k]) is NetworkPartition;
                assert(a[k] == ar[k]);
            } else {
                assert(a[a.len() - 1] == e);
            }
        }
        if exists|k: int| 0 <= k < a.len() && (#[trigger] a[k]) is NetworkPartition {
            let k = choose|k: int| 0 <= k < a.len() && (#[trigger] a[k]) is NetworkPartition;
            if k < ar.len() {
                assert(ar[k] == a[k]);
                let i = choose|i: int|
                    0 <= i < rest.len() && (#[trigger] rest[i]) is NetworkPartition
                        && rest[i].active_at(t) && rest[i].covers(vu);
                assert(events[i] == rest[i]);
            } else {
                assert(events[events.len() - 1] == e);
            }
        }
    }
}

/// Adding an event to a schedule adds its latency to the total, and partitions a VU
/// when either the schedule already did or the new event does.
pub proof fn chaos_add_event(events: Seq<ChaosEvent>, e: ChaosEvent, t: u64, vu: u64)
    ensures
        added_latency(events.push(e), t) == added_latency(events, t) + e.latency_at(t),
        partitioned(events.push(e), t, vu) <==> partitioned(events, t, vu) || (
        e is NetworkPartition && e.active_at(t) && e.covers(vu)),
{
    let s = events.push(e);
    assert(s.drop_last() =~= events);
    if partitioned(events, t, vu) {
        let i = choose|i: int|
            0 <= i < events.len() && (#[trigger] events[i]) is NetworkPartition
                && events[i].active_at(t) && events[i].covers(vu);
        assert(s[i] == events[i]);
    }
    if e is NetworkPartition && e.active_at(t) && e.covers(vu) {
        assert(s[events.len() as int] == e);
    }
    if partitioned(s, t, vu) {
        let i = choose|i: int|
            0 <= i < s.len() && (#[trigger] s[i]) is NetworkPartition && s[i].active_at(t)
                && s[i].covers(vu);
        if i < events.len() {
            assert(events[i] == s[i]);
        }
    }
}

/// Load increase pattern for virtual user injection.
#[derive(Debug, Clone, PartialEq, Eq, Structural)]
pub enum RampUpProfile {
    /// From 0 to `target_vus` at a constant rate over `duration_secs` seconds.
    Linear { target_vus: usize, duration_secs: u64 },
    /// `start_vus`, plus `step_size` more every `step_duration_secs` seconds.
    Step { start_vus: usize, step_size: usize, step_duration_secs: u64 },
    /// All `target_vus` at once.
    Instant { target_vus: usize },
}

/// Completed steps after `elapsed` nanoseconds with steps of `step_secs` seconds; with
/// zero-length steps, none at time zero and `u64::MAX` afterwards.
pub open spec fn steps_done(elapsed: nat, step_secs: u64) -> nat {
    if step_secs == 0 {
        if elapsed == 0 {
            0
        } else {
            18446744073709551615
        }
    } else {
        elapsed / ((step_secs * 1000000000) as nat)
    }
}

impl RampUpProfile {
    /// Target VU count after `elapsed` nanoseconds:
    /// Linear `ceil(elapsed / duration * target_vus)`, reaching `target_vus` at the end;
    /// Step `start_vus + steps_done * step_size`; Instant `target_vus`.
    pub open spec fn target_at(self, elapsed: nat) -> int {
        match self {
            RampUpProfile::Linear { target_vus, duration_secs } => {
                let total = duration_secs * 1000000000;
                if elapsed >= total {
                    target_vus as int
                } else {
                    ceil_div(elapsed * target_vus, total)
                }
            },
            RampUpProfile::Step { start_vus, step_size, step_duration_secs } => start_vus
                + steps_done(elapsed, step_duration_secs) * step_size,
            RampUpProfile::Instant { target_vus } => target_vus as int,
        }
    }

    /// The profile as displayed.
    pub open spec fn display(self) -> Seq<char> {
        match self {
            RampUpProfile::Linear { target_vus, duration_secs } => "Linear(0→"@ + decimal(
                target_vus as nat,
            ) + " VUs over "@ + decimal(duration_secs as nat) + "s)"@,
            RampUpProfile::Step { start_vus, step_size, step_duration_secs } => "Step("@ + decimal(
                start_vus as nat,
            ) + "+"@ + decimal(step_size as nat) + "VU every "@ + decimal(
                step_duration_secs as nat,
            ) + "s)"@,
            RampUpProfile::Instant { target_vus } => "Instant("@ + decimal(target_vus as nat)
                + " VUs)"@,
        }
    }

    /// Target VU count at `elapsed` time since the ramp-up started.
    pub fn target_vus_at(&self, elapsed: Duration) -> (r: usize)
        requires
            self.target_at(elapsed@) <= usize::MAX,
        ensures
            r == self.target_at(elapsed@),
    {
        let e = elapsed.as_nanos();
        elapsed.check_bounded();
        match self {
            RampUpProfile::Linear { target_vus, duration_secs } => {
                let total = (*duration_secs as u128) * 1000000000u128;
                if e >= total {
                    *target_vus
                } else {
                    assert(total < 0x4000_0000_0000_0000_0000_0000u128) by (nonlinear_arith)
                        requires
                            total == *duration_secs * 1000000000,
                            *duration_secs < 18446744073709551616int,
                    ;
                    mul_div_ceil(e, *target_vus as u64, total) as usize
                }
            },
            RampUpProfile::Step { start_vus, step_size, step_duration_secs } => {
                let steps: u64 = if *step_duration_secs == 0 {
                    if e == 0 {
                        0
                    } else {
                        18446744073709551615u64
                    }
                } else {
                    let d = (*step_duration_secs as u128) * 1000000000u128;
                    assert(e / d < 18446744073709551616) by (nonlinear_arith)
                        requires
                            d >= 1000000000,
                            e < 18446744073709551616 * 1000000000,
                    ;
                    (e / d) as u64
                };
                assert((steps as u128) * (*step_size as u128) < 0x1_0000_0000_0000_0000_0000_0000_0000_0000)
                    by (nonlinear_arith)
                    requires
                        steps < 18446744073709551616int,
                        *step_size < 18446744073709551616int,
                ;
                let grown = (steps as u128) * (*step_size as u128);
                (*start_vus as u128 + grown) as usize
            },
            RampUpProfile::Instant { target_vus } => *target_vus,
        }
    }

    /// Estimated total duration: the ramp length for Linear, ten steps for Step, zero
    /// for Instant.
    pub fn total_duration(&self) -> (r: Duration)
        requires
            self matches RampUpProfile::Step { step_duration_secs, .. } ==> step_duration_secs * 10
                <= u64::MAX,
        ensures
            r@ == match self {
                RampUpProfile::Linear { duration_secs, .. } => duration_secs * 1000000000,
                RampUpProfile::Step { step_duration_secs, .. } => step_duration_secs * 10
                    * 1000000000,
                RampUpProfile::Instant { .. } => 0,
            },
    {
        match self {
            RampUpProfile::Linear { duration_secs, .. } => Duration::from_secs(*duration_secs),
            RampUpProfile::Step { step_duration_secs, .. } => Duration::from_secs(
                *step_duration_secs * 10,
            ),
            RampUpProfile::Instant { .. } => Duration::zero(),
        }
    }

    /// Renders the profile.
    pub fn to_display_string(&self) -> (r: String)
        ensures
            r@ == self.display(),
    {
        match self {
            RampUpProfile::Linear { target_vus, duration_secs } => String::from_str("Linear(0→")
                .concat(format_decimal(*target_vus as u64).as_str())
                .concat(" VUs over ")
                .concat(format_decimal(*duration_secs).as_str())
                .concat("s)"),
            RampUpProfile::Step { start_vus, step_size, step_duration_secs } => String::from_str(
                "Step(",
            ).concat(format_decimal(*start_vus as u64).as_str()).concat("+").concat(
                format_decimal(*step_size as u64).as_str(),
            ).concat("VU every ").concat(format_decimal(*step_duration_secs).as_str()).concat(
                "s)",
            ),
            RampUpProfile::Instant { target_vus } => String::from_str("Instant(").concat(
                format_decimal(*target_vus as u64).as_str(),
            ).concat(" VUs)"),
        }
    }
}

/// The target VU count never decreases as time passes, and a linear ramp never
/// exceeds its target and reaches it at the end of the ramp.
pub proof fn ramp_up_monotonic(p: RampUpProfile, e1: nat, e2: nat)
    requires
        e1 <= e2,
    ensures
        p.target_at(e1) <= p.target_at(e2),
        p matches RampUpProfile::Linear { target_vus, duration_secs } ==> 0 <= p.target_at(e1)
            <= target_vus && (e1 >= duration_secs * 1000000000 ==> p.target_at(e1)
            == target_vus),
{
    match p {
        RampUpProfile::Linear { target_vus, duration_secs } => {
            let total = duration_secs * 1000000000;
            let t = target_vus as int;
            if e1 < total {
                assert(0 <= ceil_div(e1 * t, total) <= t) by (nonlinear_arith)
                    requires
                        0 <= e1 < total,
                        t >= 0,
                ;
                if e2 < total {
                    assert(ceil_div(e1 * t, total) <= ceil_div(e2 * t, total)) by (nonlinear_arith)
                        requires
                            0 <= e1 <= e2,
                            total > 0,
                            t >= 0,
                    ;
                }
            }
        },
        RampUpProfile::Step { start_vus, step_size, step_duration_secs } => {
            let s = step_size as int;
            if step_duration_secs > 0 {
                let d = (step_duration_secs * 1000000000) as nat;
                assert(e1 / d <= e2 / d) by (nonlinear_arith)
                    requires
                        e1 <= e2,
                        d > 0,
                ;
            }
            let k1 = steps_done(e1, step_duration_secs) as int;
            let k2 = steps_done(e2, step_duration_secs) as int;
            assert(k1 * s <= k2 * s) by (nonlinear_arith)
                requires
                    0 <= k1 <= k2,
                    s >= 0,
            ;
        },
        RampUpProfile::Instant { .. } => {},
    }
}

/// The message of a uniform think-time step whose bounds are reversed.
pub open spec fn uniform_think_message(min: u64, max: u64) -> Seq<char> {
    "Think(Uniform): min ("@ + decimal(min as nat) + ") > max ("@ + decimal(max as nat) + ")"@
}

/// Checks the bounds of a uniform think-time step: `min` may not exceed `max`.
pub fn check_uniform_think(min: u64, max: u64) -> (r: KrakenResult<()>)
    ensures
        r is Ok <==> min <= max,
        r matches Err(e) ==> e matches KrakenError::InvalidScenario(m) && m@
            == uniform_think_message(min, max),
{
    if min > max {
        let m = String::from_str("Think(Uniform): min (")
            .concat(format_decimal(min).as_str())
            .concat(") > max (")
            .concat(format_decimal(max).as_str())
            .concat(")");
        return Err(KrakenError::InvalidScenario(m));
    }
    Ok(())
}

/// Checks that a branch step offers at least one of its `choice_count` choices.
pub fn check_branch_choices(choice_count: usize) -> (r: KrakenResult<()>)
    ensures
        r is Ok <==> choice_count > 0,
        r matches Err(e) ==> e matches KrakenError::InvalidScenario(m) && m@
            == "Branch: must have at least one choice"@,
{
    if choice_count == 0 {
        return Err(
            KrakenError::InvalidScenario(String::from_str("Branch: must have at least one choice")),
        );
    }
    Ok(())
}

/// Checks that a retry step allows at least one retry.
pub fn check_retry_on_error(max_retries: u32) -> (r: KrakenResult<()>)
    ensures
        r is Ok <==> max_retries > 0,
        r matches Err(e) ==> e matches KrakenError::InvalidScenario(m) && m@
            == "RetryOnError: max_retries must be > 0"@,
{
    if max_retries == 0 {
        return Err(
            KrakenError::InvalidScenario(String::from_str("RetryOnError: max_retries must be > 0")),
        );
    }
    Ok(())
}

/// Checks that a loop step runs at least once.
pub fn check_loop(iterations: u32) -> (r: KrakenResult<()>)
    ensures
        r is Ok <==> iterations > 0,
        r matches Err(e) ==> e matches KrakenError::InvalidScenario(m) && m@
            == "Loop: iterations must be ≥ 1"@,
{
    if iterations == 0 {
        return Err(KrakenError::InvalidScenario(String::from_str("Loop: iterations must be ≥ 1")));
    }
    Ok(())
}

/// The error of a scenario whose step `index` failed with `e`: an invalid scenario
/// whose message names the step and carries `e`'s text.
pub fn scenario_step_error(index: usize, e: &KrakenError) -> (r: KrakenError)
    ensures
        r matches KrakenError::InvalidScenario(m) && m@ == "Step "@ + decimal(index as nat) + ": "@
            + e.display(),
{
    let m = String::from_str("Step ")
        .concat(format_decimal(index as u64).as_str())
        .concat(": ")
        .concat(e.to_display_string().as_str());
    KrakenError::InvalidScenario(m)
}


/// A step ramp starts at `start_vus`, holds it through the first step, and adds exactly
/// `step_size` VUs at every step boundary, without bound: one step later the target is
/// always `step_size` higher.
pub proof fn step_ramp_adds_each_step(
    start_vus: usize,
    step_size: usize,
    step_duration_secs: u64,
    elapsed: nat,
)
    requires
        step_duration_secs > 0,
    ensures
        ({
            let p = RampUpProfile::Step { start_vus, step_size, step_duration_secs };
            let d = (step_duration_secs * 1000000000) as nat;
            &&& elapsed < d ==> p.target_at(elapsed) == start_vus
            &&& p.target_at(elapsed + d) == p.target_at(elapsed) + step_size
        }),
{
    let d = (step_duration_secs * 1000000000) as nat;
    assert(d > 0);
    vstd::arithmetic::div_mod::lemma_div_plus_one(elapsed as int, d as int);
    assert((d + elapsed) as int / d as int == 1 + elapsed as int / d as int);
    let k = elapsed / d;
    assert((elapsed + d) / d == k + 1);
    assert(steps_done(elapsed, step_duration_secs) == k);
    assert(steps_done(elapsed + d, step_duration_secs) == k + 1);
    assert((k + 1) * step_size == k * step_size + step_size) by (nonlinear_arith);
    let p = RampUpProfile::Step { start_vus, step_size, step_duration_secs };
    assert(p.target_at(elapsed) == start_vus + k * step_size);
    assert(p.target_at(elapsed + d) == start_vus + (k + 1) * step_size);
    assert(p.target_at(elapsed + d) == p.target_at(elapsed) + step_size);
    if elapsed < d {
        assert(elapsed / d == 0) by (nonlinear_arith)
            requires
                elapsed < d,
                d > 0,
        ;
        assert(k == 0);
        assert(k * step_size == 0) by (nonlinear_arith)
            requires
                k == 0,
        ;
        assert(p.target_at(elapsed) == start_vus);
    }
}

} // verus!
