//! Worker process lifecycle supervision.
//!
//! The supervisor owns the bookkeeping for the one worker process: which
//! process is currently tracked and where it stands in its lifecycle. The
//! surrounding application performs the actual spawn and termination
//! syscalls; it asks [`Supervisor::kill`] which process to terminate (and
//! does so, waiting synchronously for exit) and reports a successful spawn
//! through [`Supervisor::record_spawn`]. Starting while a process is tracked
//! always terminates the old one first, so no process is ever orphaned; the
//! decisions here make that order unavoidable, and the model lemmas below
//! prove it leaves exactly one live worker.

use vstd::prelude::*;

verus! {

/// Where the supervised worker stands in its lifecycle.
#[derive(Clone, Copy, Debug, PartialEq, Eq, Structural)]
pub enum Lifecycle {
    /// No worker has ever been tracked.
    NotStarted,
    /// A spawned worker is currently tracked.
    Running,
    /// The last tracked worker has been handed over for termination.
    Terminated,
}

/// The supervisor's bookkeeping: at most one tracked worker at a time.
pub struct Supervisor {
    handle: Option<u64>,
    state: Lifecycle,
}

impl Supervisor {
    /// The identifier of the tracked worker process, if one is tracked.
    pub closed spec fn worker(self) -> Option<u64> {
        self.handle
    }

    /// The lifecycle stage the supervisor has reached.
    pub closed spec fn lifecycle(self) -> Lifecycle {
        self.state
    }

    /// A fresh supervisor tracks nothing.
    pub fn new() -> (s: Supervisor)
        ensures
            s.worker() is None,
            s.lifecycle() == Lifecycle::NotStarted,
    {
        Supervisor { handle: None, state: Lifecycle::NotStarted }
    }

    /// Runtime view of [`Self::worker`].
    pub fn tracked_worker(&self) -> (r: Option<u64>)
        ensures
            r == self.worker(),
    {
        self.handle
    }

    /// Runtime view of [`Self::lifecycle`].
    pub fn current_lifecycle(&self) -> (r: Lifecycle)
        ensures
            r == self.lifecycle(),
    {
        self.state
    }

    /// The kill decision, shared by the shutdown path and by the start path
    /// (which terminates any old worker before spawning the new one). Hands
    /// back the tracked process for the caller to terminate and wait on, and
    /// clears the handle. With nothing tracked this is a no-op that changes
    /// nothing and returns nothing, any number of times in a row.
    pub fn kill(&mut self) -> (victim: Option<u64>)
        ensures
            victim == old(self).worker(),
            final (self).worker() is None,
            final (self).lifecycle() == (if old(self).worker() is Some {
                Lifecycle::Terminated
            } else {
                old(self).lifecycle()
            }),
            old(self).worker() is None ==> *final (self) == *old(self),
    {
        match self.handle {
            Some(pid) => {
                self.handle = None;
                self.state = Lifecycle::Terminated;
                Some(pid)
            },
            None => None,
        }
    }

    /// Records a successful spawn. The caller must have gone through the
    /// kill decision first, so the supervisor never tracks two processes.
    pub fn record_spawn(&mut self, pid: u64)
        requires
            old(self).worker() is None,
        ensures
            final (self).worker() == Some(pid),
            final (self).lifecycle() == Lifecycle::Running,
    {
        self.handle = Some(pid);
        self.state = Lifecycle::Running;
    }
}

/// The supervisor together with the worker processes it has spawned and not
/// yet terminated — the ghost world against which the lifecycle laws are
/// stated.
#[verifier::ext_equal]
pub struct WorldModel {
    /// Workers this supervisor spawned that are still alive.
    pub live: Set<u64>,
    /// The worker the supervisor currently tracks.
    pub worker: Option<u64>,
}

/// The supervisor's invariant over the world: it tracks exactly its live
/// workers, so there is at most one and nothing is orphaned.
pub open spec fn world_inv(w: WorldModel) -> bool {
    forall|p: u64| w.live.contains(p) <==> w.worker == Some(p)
}

/// One kill: the tracked worker (if any) is terminated and no longer
/// tracked; with nothing tracked the world is untouched.
pub open spec fn kill_model(w: WorldModel) -> WorldModel {
    match w.worker {
        Some(p) => WorldModel { live: w.live.remove(p), worker: None },
        None => w,
    }
}

/// One start: any tracked worker is killed first, then the fresh process
/// `pid` becomes live and tracked.
pub open spec fn start_model(w: WorldModel, pid: u64) -> WorldModel {
    let k = kill_model(w);
    WorldModel { live: k.live.insert(pid), worker: Some(pid) }
}

/// Kill is idempotent: with nothing tracked it changes nothing, so killing
/// any number of times in a row equals killing once.
pub proof fn lemma_kill_idempotent(w: WorldModel)
    requires
        world_inv(w),
    ensures
        kill_model(kill_model(w)) == kill_model(w),
        world_inv(kill_model(w)),
        kill_model(w).live =~= Set::<u64>::empty(),
{
    match w.worker {
        Some(p) => {
            assert(kill_model(w).live =~= Set::<u64>::empty());
        },
        None => {
            assert(w.live =~= Set::<u64>::empty());
        },
    }
}

/// One start leaves exactly the new worker live and tracked.
pub proof fn lemma_start_single_live(w: WorldModel, pid: u64)
    requires
        world_inv(w),
    ensures
        world_inv(start_model(w, pid)),
        start_model(w, pid).live =~= set![pid],
{
    lemma_kill_idempotent(w);
    assert(start_model(w, pid).live =~= set![pid]);
}

/// Starting twice in succession leaves exactly one live worker — the second
/// one — because each start terminates the tracked process before spawning
/// anew. No process leaks.
pub proof fn lemma_start_twice_single_live(w: WorldModel, p1: u64, p2: u64)
    requires
        world_inv(w),
    ensures
        world_inv(start_model(start_model(w, p1), p2)),
        start_model(start_model(w, p1), p2).live =~= set![p2],
{
    lemma_start_single_live(w, p1);
    lemma_start_single_live(start_model(w, p1), p2);
}

} // verus!
