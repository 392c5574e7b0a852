use activity_agent::sampler::INTERVAL_MS;
use activity_agent::sampler::Sampler;
use activity_agent::sampler::SamplerAction;
use activity_agent::sampler::WARMUP_MS;
use activity_agent::supervisor::Supervisor;

#[test]
fn first_action_is_the_warmup_wait() {
    let mut s = Sampler::new();
    assert_eq!(s.step(false), SamplerAction::Wait(WARMUP_MS));
}

#[test]
fn ticks_and_interval_waits_alternate_indefinitely() {
    let mut s = Sampler::new();
    assert_eq!(s.step(false), SamplerAction::Wait(WARMUP_MS));
    for _ in 0..50 {
        assert_eq!(s.step(false), SamplerAction::SampleAndReport);
        assert_eq!(s.step(false), SamplerAction::Wait(INTERVAL_MS));
    }
}

#[test]
fn cadence_ignores_delivery_outcomes() {
    let mut failing = Sampler::new();
    let mut succeeding = Sampler::new();
    for i in 0..40 {
        let a = failing.step(false);
        let b = succeeding.step(i % 2 == 0);
        assert_eq!(a, b);
    }
}

#[test]
fn loop_keeps_running_after_the_worker_dies_at_once() {
    // The worker spawns successfully and exits immediately; the supervisor
    // saw a successful spawn, every delivery fails, and the sampling loop
    // keeps its cadence regardless.
    let mut sup = Supervisor::new();
    assert_eq!(sup.kill(), None);
    sup.record_spawn(31);
    let mut s = Sampler::new();
    assert_eq!(s.step(false), SamplerAction::Wait(WARMUP_MS));
    for _ in 0..10 {
        assert_eq!(s.step(false), SamplerAction::SampleAndReport);
        assert_eq!(s.step(false), SamplerAction::Wait(INTERVAL_MS));
    }
    // Shutdown still hands the (long dead) worker over exactly once.
    assert_eq!(sup.kill(), Some(31));
    assert_eq!(sup.kill(), None);
}
