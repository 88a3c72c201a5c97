use laplace_interfaces::domain::kraken::{
    check_branch_choices, check_loop, check_retry_on_error, check_uniform_think,
    scenario_step_error, ChaosEvent, ChaosSchedule, Duration, RampUpProfile, VUState,
};
use laplace_interfaces::error::kraken::KrakenError;

fn spike(start_ms: u64, end_ms: u64, extra: u64) -> ChaosEvent {
    ChaosEvent::LatencySpike { start_ms, end_ms, extra_latency_ms: extra }
}

fn partition(start_ms: u64, end_ms: u64, lo: u64, hi: u64) -> ChaosEvent {
    ChaosEvent::NetworkPartition { start_ms, end_ms, target_vu_range: lo..hi }
}

#[test]
fn chaos_event_windows_are_half_open() {
    let e = spike(100, 200, 50);
    assert!(!e.is_active_at_ms(99));
    assert!(e.is_active_at_ms(100));
    assert!(e.is_active_at_ms(199));
    assert!(!e.is_active_at_ms(200));
    assert!(!e.affects_vu_id(0));
    let p = partition(0, 10, 2, 5);
    assert!(p.affects_vu_id(2));
    assert!(p.affects_vu_id(4));
    assert!(!p.affects_vu_id(5));
}

#[test]
fn chaos_schedule_queries() {
    let mut schedule = ChaosSchedule::new();
    assert_eq!(schedule.event_count(), 0);
    schedule.add_event(spike(0, 100, 30));
    schedule.add_event(spike(50, 150, 20));
    schedule.add_event(partition(40, 60, 0, 3));
    assert_eq!(schedule.event_count(), 3);

    assert_eq!(schedule.total_extra_latency_ms(10), 30);
    assert_eq!(schedule.total_extra_latency_ms(75), 50);
    assert_eq!(schedule.total_extra_latency_ms(120), 20);
    assert_eq!(schedule.total_extra_latency_ms(150), 0);

    assert!(schedule.is_partitioned(45, 1));
    assert!(!schedule.is_partitioned(45, 3));
    assert!(!schedule.is_partitioned(60, 1));

    let active = schedule.get_active_events(55, 1);
    assert_eq!(active.len(), 3);
    let active = schedule.get_active_events(55, 7);
    assert_eq!(active.len(), 2);
    assert_eq!(*active[0], spike(0, 100, 30));
    assert_eq!(*active[1], spike(50, 150, 20));
}

#[test]
fn chaos_schedule_from_events_keeps_order() {
    let schedule = ChaosSchedule::from_events(vec![partition(0, 5, 1, 2), spike(0, 5, 7)]);
    let active = schedule.get_active_events(0, 1);
    assert_eq!(active.len(), 2);
    assert_eq!(*active[0], partition(0, 5, 1, 2));
    assert_eq!(schedule.total_extra_latency_ms(0), 7);
}

#[test]
fn linear_ramp_up_targets() {
    let p = RampUpProfile::Linear { target_vus: 10, duration_secs: 10 };
    assert_eq!(p.target_vus_at(Duration::zero()), 0);
    assert_eq!(p.target_vus_at(Duration::from_secs(5)), 5);
    assert_eq!(p.target_vus_at(Duration::new(3, 300_000_000)), 4);
    assert_eq!(p.target_vus_at(Duration::new(0, 1)), 1);
    assert_eq!(p.target_vus_at(Duration::from_secs(10)), 10);
    assert_eq!(p.target_vus_at(Duration::from_secs(20)), 10);
    assert_eq!(p.total_duration().as_secs(), 10);
}

#[test]
fn step_and_instant_ramp_up_targets() {
    let s = RampUpProfile::Step { start_vus: 2, step_size: 3, step_duration_secs: 5 };
    assert_eq!(s.target_vus_at(Duration::zero()), 2);
    assert_eq!(s.target_vus_at(Duration::new(4, 999_999_999)), 2);
    assert_eq!(s.target_vus_at(Duration::from_secs(5)), 5);
    assert_eq!(s.target_vus_at(Duration::from_secs(12)), 8);
    assert_eq!(s.total_duration().as_secs(), 50);

    let i = RampUpProfile::Instant { target_vus: 7 };
    assert_eq!(i.target_vus_at(Duration::zero()), 7);
    assert_eq!(i.total_duration().as_nanos(), 0);
}

#[test]
fn ramp_up_is_monotonic_on_samples() {
    let p = RampUpProfile::Linear { target_vus: 13, duration_secs: 7 };
    let mut prev = 0;
    for ms in (0..8000u64).step_by(37) {
        let d = Duration::new(ms / 1000, ((ms % 1000) * 1_000_000) as u32);
        let t = p.target_vus_at(d);
        assert!(t >= prev);
        assert!(t <= 13);
        prev = t;
    }
}

#[test]
fn ramp_up_display() {
    assert_eq!(
        RampUpProfile::Linear { target_vus: 10, duration_secs: 30 }.to_display_string(),
        "Linear(0→10 VUs over 30s)"
    );
    assert_eq!(
        RampUpProfile::Step { start_vus: 1, step_size: 2, step_duration_secs: 3 }
            .to_display_string(),
        "Step(1+2VU every 3s)"
    );
    assert_eq!(
        RampUpProfile::Instant { target_vus: 4 }.to_display_string(),
        "Instant(4 VUs)"
    );
}

#[test]
fn duration_parts() {
    let d = Duration::new(3, 1_500_000_000);
    assert_eq!(d.as_secs(), 4);
    assert_eq!(d.subsec_nanos(), 500_000_000);
    assert_eq!(d.as_nanos(), 4_500_000_000);
}

#[test]
fn vu_state_classes() {
    assert!(VUState::Finished.is_terminal());
    assert!(!VUState::Idle.is_terminal());
    assert!(VUState::Requesting.is_blocking());
    assert!(VUState::Waiting.is_blocking());
    assert!(!VUState::Thinking.is_blocking());
    assert_eq!(VUState::Validating.to_display_string(), "Validating");
}

#[test]
fn scenario_step_checks() {
    assert!(check_uniform_think(1, 1).is_ok());
    assert_eq!(
        check_uniform_think(5, 3),
        Err(KrakenError::InvalidScenario("Think(Uniform): min (5) > max (3)".to_string()))
    );
    assert!(check_branch_choices(2).is_ok());
    assert_eq!(
        check_branch_choices(0),
        Err(KrakenError::InvalidScenario("Branch: must have at least one choice".to_string()))
    );
    assert!(check_retry_on_error(1).is_ok());
    assert_eq!(
        check_retry_on_error(0),
        Err(KrakenError::InvalidScenario("RetryOnError: max_retries must be > 0".to_string()))
    );
    assert!(check_loop(3).is_ok());
    assert_eq!(
        check_loop(0),
        Err(KrakenError::InvalidScenario("Loop: iterations must be ≥ 1".to_string()))
    );
}

#[test]
fn scenario_step_error_names_the_step() {
    let inner = KrakenError::InvalidScenario("Loop: iterations must be ≥ 1".to_string());
    let e = scenario_step_error(2, &inner);
    assert_eq!(
        e,
        KrakenError::InvalidScenario(
            "Step 2: Invalid scenario: Loop: iterations must be ≥ 1".to_string()
        )
    );
}
