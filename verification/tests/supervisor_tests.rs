use activity_agent::supervisor::Lifecycle;
use activity_agent::supervisor::Supervisor;

#[test]
fn kill_with_nothing_tracked_is_a_noop_every_time() {
    let mut s = Supervisor::new();
    for _ in 0..5 {
        assert_eq!(s.kill(), None);
        assert_eq!(s.tracked_worker(), None);
        assert_eq!(s.current_lifecycle(), Lifecycle::NotStarted);
    }
}

#[test]
fn starting_twice_tracks_exactly_the_second_worker() {
    let mut s = Supervisor::new();
    // First start: nothing to kill, then the spawn is recorded.
    assert_eq!(s.kill(), None);
    s.record_spawn(101);
    assert_eq!(s.tracked_worker(), Some(101));
    // Second start: the old worker is handed over for termination first.
    assert_eq!(s.kill(), Some(101));
    assert_eq!(s.tracked_worker(), None);
    s.record_spawn(202);
    assert_eq!(s.tracked_worker(), Some(202));
    assert_eq!(s.current_lifecycle(), Lifecycle::Running);
}

#[test]
fn kill_clears_the_tracked_worker_and_stays_cleared() {
    let mut s = Supervisor::new();
    s.record_spawn(7);
    assert_eq!(s.current_lifecycle(), Lifecycle::Running);
    assert_eq!(s.kill(), Some(7));
    assert_eq!(s.tracked_worker(), None);
    assert_eq!(s.current_lifecycle(), Lifecycle::Terminated);
    // Idempotent from the caller's perspective, even right after a real kill.
    assert_eq!(s.kill(), None);
    assert_eq!(s.current_lifecycle(), Lifecycle::Terminated);
}
