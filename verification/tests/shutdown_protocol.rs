use projwatch::shutdown::{GraceTimer, ShutdownSignal};

#[test]
fn flags_start_clear_and_only_rise() {
    let mut s = ShutdownSignal::new();
    assert!(!s.cancel_requested);
    assert!(!s.work_completed);

    s.request_cancel();
    assert!(s.cancel_requested);
    assert!(!s.work_completed);

    s.mark_completed();
    assert!(s.cancel_requested);
    assert!(s.work_completed);

    s.request_cancel();
    s.mark_completed();
    assert!(s.cancel_requested);
    assert!(s.work_completed);
}

#[test]
fn grace_wait_stops_at_bound() {
    let mut t = GraceTimer::new(20);
    for _ in 0..19 {
        assert!(!t.tick(false));
    }
    assert!(t.tick(false));
    assert_eq!(t.steps_used, 20);
}

#[test]
fn grace_wait_stops_on_completion() {
    let mut t = GraceTimer::new(20);
    assert!(!t.tick(false));
    assert!(t.tick(true));
    assert_eq!(t.steps_used, 2);
}
