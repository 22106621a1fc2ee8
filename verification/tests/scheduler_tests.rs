use reach_link::health::health_payload;
use reach_link::relay::TransportFault;
use reach_link::scheduler::LoopScheduler;
use reach_link::shutdown::ShutdownSignal;
use reach_link::snapshot::snapshot_for_fetch;

#[test]
fn test_scheduler_starts_at_default() {
    let s = LoopScheduler::new(30);
    assert_eq!(s.interval_secs, 30);
    assert_eq!(s.effective_wait_secs(), 30);
}

#[test]
fn test_positive_hint_adopted() {
    let mut s = LoopScheduler::new(30);
    s.apply_hint(Some(45));
    assert_eq!(s.interval_secs, 45);
    assert_eq!(s.effective_wait_secs(), 45);
}

#[test]
fn test_zero_hint_retained() {
    let mut s = LoopScheduler::new(30);
    s.apply_hint(Some(0));
    assert_eq!(s.interval_secs, 30);
}

#[test]
fn test_no_hint_retained() {
    let mut s = LoopScheduler::new(30);
    s.apply_hint(None);
    assert_eq!(s.interval_secs, 30);
}

#[test]
fn test_transport_fault_retains_interval() {
    let mut s = LoopScheduler::new(30);
    s.apply_hint(Some(12));
    let fault: Result<Option<u64>, TransportFault> =
        Err(TransportFault { message: "connection refused".to_string() });
    s.apply_tick_outcome(&fault);
    assert_eq!(s.interval_secs, 12);
}

#[test]
fn test_tick_outcome_with_hint() {
    let mut s = LoopScheduler::new(30);
    let ok: Result<Option<u64>, TransportFault> = Ok(Some(7));
    s.apply_tick_outcome(&ok);
    assert_eq!(s.interval_secs, 7);
}

#[test]
fn test_effective_wait_floor() {
    let s = LoopScheduler::new(0);
    assert_eq!(s.effective_wait_secs(), 1);
    let mut t = LoopScheduler::new(30);
    // A zero hint is not adopted, so the floor guards the configured zero
    // default only.
    t.apply_hint(Some(0));
    assert_eq!(t.effective_wait_secs(), 30);
}

#[test]
fn test_shutdown_starts_unfired() {
    let s = ShutdownSignal::new();
    assert!(!s.is_fired());
}

#[test]
fn test_shutdown_fire_observed() {
    let mut s = ShutdownSignal::new();
    s.fire();
    assert!(s.is_fired());
}

#[test]
fn test_shutdown_fire_idempotent() {
    let mut once = ShutdownSignal::new();
    once.fire();
    let mut twice = ShutdownSignal::new();
    twice.fire();
    twice.fire();
    assert_eq!(once, twice);
    assert!(twice.is_fired());
}

#[test]
fn test_shutdown_late_observer_still_notified() {
    let mut s = ShutdownSignal::new();
    s.fire();
    // A check made only after the fire still sees the fired state.
    let late_view = s;
    assert!(late_view.is_fired());
}

#[test]
fn test_health_payload_fixed() {
    assert_eq!(health_payload(), "OK");
}

#[test]
fn test_health_independent_of_upstream_state() {
    // Both upstream fetches failing (transport down) changes nothing
    // about the liveness answer.
    let snapshot = snapshot_for_fetch(None);
    assert!(snapshot.temperatures.is_none() && snapshot.job.is_none());
    assert_eq!(health_payload(), "OK");
}
