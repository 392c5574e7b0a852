//! The fixed-cadence sampling loop's scheduling state.
//!
//! The loop itself runs in the surrounding application for the lifetime of
//! the process: it asks [`Sampler::step`] what to do next and performs the
//! answer — sleep, or run one tick (sensor query, URL resolution, sample
//! build, delivery). All scheduling decisions live here, so the cadence is
//! provable: one warm-up wait first, then ticks and interval waits in strict
//! alternation, with no terminal state and no dependence on how any
//! delivery turned out.

use vstd::prelude::*;

verus! {

/// Milliseconds the loop waits before its first tick, giving the worker
/// time to finish starting.
pub const WARMUP_MS: u64 = 5000;

/// Milliseconds between consecutive ticks.
pub const INTERVAL_MS: u64 = 1000;

/// Where the sampling loop stands.
#[derive(Clone, Copy, Debug, PartialEq, Eq, Structural)]
pub enum SamplerPhase {
    /// Launched, but the warm-up wait has not been issued yet.
    WarmingUp,
    /// A tick is due now.
    TickDue,
    /// The last tick ran; the interval wait is due before the next one.
    Resting,
}

/// What the loop's runner must do next.
#[derive(Clone, Copy, Debug, PartialEq, Eq, Structural)]
pub enum SamplerAction {
    /// Sleep this many milliseconds.
    Wait(u64),
    /// Run one tick: query the sensor, resolve the URL, build the sample,
    /// hand it to the reporter.
    SampleAndReport,
}

/// The phase one scheduling decision later.
pub open spec fn phase_after(p: SamplerPhase) -> SamplerPhase {
    match p {
        SamplerPhase::WarmingUp => SamplerPhase::TickDue,
        SamplerPhase::TickDue => SamplerPhase::Resting,
        SamplerPhase::Resting => SamplerPhase::TickDue,
    }
}

/// The action each phase calls for.
pub open spec fn action_of(p: SamplerPhase) -> SamplerAction {
    match p {
        SamplerPhase::WarmingUp => SamplerAction::Wait(WARMUP_MS),
        SamplerPhase::TickDue => SamplerAction::SampleAndReport,
        SamplerPhase::Resting => SamplerAction::Wait(INTERVAL_MS),
    }
}

/// The scheduling state of the sampling loop.
pub struct Sampler {
    cur: SamplerPhase,
}

impl Sampler {
    /// The loop's current phase.
    pub closed spec fn phase(self) -> SamplerPhase {
        self.cur
    }

    /// A freshly launched loop is warming up.
    pub fn new() -> (s: Sampler)
        ensures
            s.phase() == SamplerPhase::WarmingUp,
    {
        Sampler { cur: SamplerPhase::WarmingUp }
    }

    /// One scheduling decision. `delivery_succeeded` reports how the
    /// previous tick's delivery went; the contract fixes both the action and
    /// the next phase from the current phase alone, so the loop behaves
    /// identically even when every delivery fails.
    pub fn step(&mut self, delivery_succeeded: bool) -> (a: SamplerAction)
        ensures
            a == action_of(old(self).phase()),
            final (self).phase() == phase_after(old(self).phase()),
    {
        let _ = delivery_succeeded;
        let a = match self.cur {
            SamplerPhase::WarmingUp => SamplerAction::Wait(WARMUP_MS),
            SamplerPhase::TickDue => SamplerAction::SampleAndReport,
            SamplerPhase::Resting => SamplerAction::Wait(INTERVAL_MS),
        };
        self.cur = match self.cur {
            SamplerPhase::WarmingUp => SamplerPhase::TickDue,
            SamplerPhase::TickDue => SamplerPhase::Resting,
            SamplerPhase::Resting => SamplerPhase::TickDue,
        };
        a
    }
}

/// The phase after `n` scheduling decisions from launch.
pub open spec fn phase_at(n: nat) -> SamplerPhase
    decreases n,
{
    if n == 0 {
        SamplerPhase::WarmingUp
    } else {
        phase_after(phase_at((n - 1) as nat))
    }
}

/// The `n`-th action the loop issues, counting from launch.
pub open spec fn action_at(n: nat) -> SamplerAction {
    action_of(phase_at(n))
}

/// The loop's cadence, forever: the very first action is the warm-up wait,
/// so no sample — and hence no network call — happens before it elapses;
/// after that, ticks (one sensor query and one delivery each) and interval
/// waits strictly alternate, so at most one tick runs per interval. The
/// phases never depend on delivery outcomes, so this holds even when every
/// delivery fails.
pub proof fn lemma_sampling_cadence(n: nat)
    ensures
        action_at(0) == SamplerAction::Wait(WARMUP_MS),
        phase_at(n) == (if n == 0 {
            SamplerPhase::WarmingUp
        } else if n % 2 == 1 {
            SamplerPhase::TickDue
        } else {
            SamplerPhase::Resting
        }),
        n >= 1 ==> (action_at(n) == SamplerAction::SampleAndReport <==> n % 2 == 1),
        (n >= 2 && n % 2 == 0) ==> action_at(n) == SamplerAction::Wait(INTERVAL_MS),
    decreases n,
{
    if n > 0 {
        lemma_sampling_cadence((n - 1) as nat);
    }
}

} // verus!
