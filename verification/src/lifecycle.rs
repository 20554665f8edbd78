//! The pool lifecycle singleton: at-most-once creation of the worker pool,
//! submission gating, and drain-on-shutdown.
//!
//! A [`Lifecycle`] value moves through three phases — `Uninitialized`,
//! `Running`, `Stopped` — and only its three entry points move it. The pool
//! is created by exactly one successful [`Lifecycle::initialize`]; a second
//! call reports it as already initialized and changes nothing. Connections
//! are accepted in exactly the running phase; an accepted one is handed to
//! the pool, raising the singleton's count of submitted tasks by one, while
//! a rejected one hands the caller's [`ConnectionHandle`] back untouched.
//! [`Lifecycle::shutdown`] drains the pool — it blocks until every submitted
//! task has finished — before the pool is released, and its contract says
//! so: the retired pool, holder of all the submitted tasks, was drained.
//! Shutdown is final: once stopped, the singleton never runs again.
//!
//! The embedding program keeps the one `Lifecycle` value behind a
//! mutual-exclusion primitive of its choice; the methods here are the whole
//! of what may be done to it.

use vstd::prelude::*;

use crate::handle::ConnectionHandle;
use crate::pool::{pool_drained, pool_execute, pool_jobs, pool_join, pool_new, pool_width};

verus! {

/// The externally visible phase of the singleton; `Running(n)` carries the
/// number of worker threads the one pool was created with.
#[derive(Clone, Copy, PartialEq, Eq, Structural, Debug)]
pub enum PoolPhase {
    Uninitialized,
    Running(usize),
    Stopped,
}

/// Outcome of [`Lifecycle::initialize`].
#[derive(Clone, Copy, PartialEq, Eq, Structural, Debug)]
pub enum InitStatus {
    /// The pool was created by this call.
    Initialized,
    /// A pool already exists (or existed); nothing was changed.
    AlreadyInitialized,
    /// A thread count of zero was rejected; nothing was changed.
    InvalidCount,
}

/// Outcome of [`Lifecycle::submit_connection`]. On rejection the caller's
/// handle comes back: responsibility for closing it stays with the caller.
#[derive(PartialEq, Eq, Structural, Debug)]
pub enum SubmitOutcome {
    /// The connection's task was queued on the pool.
    Queued,
    /// The pool is not running; the untouched handle is returned.
    Rejected(ConnectionHandle),
}

enum LifecycleState {
    Uninitialized,
    Running { pool: threadpool::ThreadPool, threads: usize },
    Stopped,
}

/// What `initialize` does to the phase, and what it reports: the one
/// transition out of `Uninitialized`, taken at most once.
pub open spec fn init_transition(p: PoolPhase, num_threads: usize) -> (PoolPhase, InitStatus) {
    match p {
        PoolPhase::Uninitialized => if num_threads == 0 {
            (PoolPhase::Uninitialized, InitStatus::InvalidCount)
        } else {
            (PoolPhase::Running(num_threads), InitStatus::Initialized)
        },
        PoolPhase::Running(n) => (PoolPhase::Running(n), InitStatus::AlreadyInitialized),
        PoolPhase::Stopped => (PoolPhase::Stopped, InitStatus::AlreadyInitialized),
    }
}

/// Submissions are accepted in exactly the running phase.
pub open spec fn accepts_submissions(p: PoolPhase) -> bool {
    p is Running
}

/// What `shutdown` does to the phase: a no-op when the pool was never
/// created, and otherwise the final step to `Stopped`.
pub open spec fn shutdown_transition(p: PoolPhase) -> PoolPhase {
    match p {
        PoolPhase::Uninitialized => PoolPhase::Uninitialized,
        PoolPhase::Running(_) => PoolPhase::Stopped,
        PoolPhase::Stopped => PoolPhase::Stopped,
    }
}

/// The process-wide pool singleton. See the module documentation.
pub struct Lifecycle {
    state: LifecycleState,
    /// The pool that was held when shutdown ran, kept nameable (in ghost
    /// form only — the threads themselves are released) so the contract can
    /// say of that very pool that it was drained.
    retired: Ghost<Option<threadpool::ThreadPool>>,
}

impl Lifecycle {
    /// The current phase, as specifications see it.
    pub closed spec fn phase(&self) -> PoolPhase {
        match self.state {
            LifecycleState::Uninitialized => PoolPhase::Uninitialized,
            LifecycleState::Running { pool: _, threads } => PoolPhase::Running(threads),
            LifecycleState::Stopped => PoolPhase::Stopped,
        }
    }

    /// Well-formedness: a running singleton holds a pool whose width is the
    /// recorded, positive thread count. Established by [`Lifecycle::new`] and
    /// preserved by every method.
    pub closed spec fn wf(&self) -> bool {
        match self.state {
            LifecycleState::Running { pool, threads } => threads >= 1 && pool_width(pool)
                == threads,
            _ => true,
        }
    }

    /// The number of tasks this singleton has handed to its running pool
    /// since the pool was created; zero outside the running phase.
    pub closed spec fn submitted(&self) -> nat {
        match self.state {
            LifecycleState::Running { pool, threads: _ } => pool_jobs(pool),
            _ => 0,
        }
    }

    /// Whether a shutdown has retired the held pool and that pool was
    /// drained — every job handed to it had finished — before its release.
    pub closed spec fn drained_retired(&self) -> bool {
        match self.retired@ {
            Some(p) => pool_drained(p),
            None => false,
        }
    }

    /// How many tasks the retired pool had been handed over its life.
    pub closed spec fn retired_submitted(&self) -> nat {
        match self.retired@ {
            Some(p) => pool_jobs(p),
            None => 0,
        }
    }

    /// A fresh, uninitialized singleton. No pool exists yet.
    pub fn new() -> (m: Lifecycle)
        ensures
            m.phase() == PoolPhase::Uninitialized,
            m.wf(),
            m.submitted() == 0,
    {
        Lifecycle { state: LifecycleState::Uninitialized, retired: Ghost(None) }
    }

    /// The current phase, observably.
    pub fn current_phase(&self) -> (p: PoolPhase)
        ensures
            p == self.phase(),
    {
        match &self.state {
            LifecycleState::Uninitialized => PoolPhase::Uninitialized,
            LifecycleState::Running { pool: _, threads } => PoolPhase::Running(*threads),
            LifecycleState::Stopped => PoolPhase::Stopped,
        }
    }

    /// Create the worker pool, once. If a pool already exists — or existed
    /// and was shut down — nothing happens and the caller is told so; a
    /// thread count of zero is rejected. Only the first successful call ever
    /// changes the singleton.
    pub fn initialize(&mut self, num_threads: usize) -> (r: InitStatus)
        requires
            old(self).wf(),
        ensures
            final(self).wf(),
            (final(self).phase(), r) == init_transition(old(self).phase(), num_threads),
            !(old(self).phase() is Uninitialized && num_threads >= 1) ==> *final(self) == *old(
                self,
            ),
            old(self).phase() is Uninitialized && num_threads >= 1 ==> final(self).submitted()
                == 0,
    {
        match &self.state {
            LifecycleState::Uninitialized => {
                if num_threads == 0 {
                    InitStatus::InvalidCount
                } else {
                    let pool = pool_new(num_threads);
                    self.state = LifecycleState::Running { pool, threads: num_threads };
                    InitStatus::Initialized
                }
            },
            _ => InitStatus::AlreadyInitialized,
        }
    }

    /// Hand an exclusively owned connection, bundled with the work to run on
    /// it, to the pool. In the running phase the task — owning the handle —
    /// is handed to the pool, raising the count of submitted tasks by one,
    /// to be executed exactly once by some worker thread. In any other phase
    /// the submission is rejected, the singleton untouched, and the handle
    /// comes back to the caller, unconsumed: the caller keeps the duty to
    /// close it.
    pub fn submit_connection<F: FnOnce(ConnectionHandle) + Send + 'static>(
        &mut self,
        conn: ConnectionHandle,
        task: F,
    ) -> (r: SubmitOutcome)
        requires
            old(self).wf(),
            call_requires(task, (conn,)),
        ensures
            final(self).wf(),
            final(self).phase() == old(self).phase(),
            final(self).drained_retired() == old(self).drained_retired(),
            final(self).retired_submitted() == old(self).retired_submitted(),
            accepts_submissions(old(self).phase()) ==> r == SubmitOutcome::Queued
                && final(self).submitted() == old(self).submitted() + 1,
            !accepts_submissions(old(self).phase()) ==> r == SubmitOutcome::Rejected(conn)
                && *final(self) == *old(self),
    {
        match &mut self.state {
            LifecycleState::Running { pool, threads: _ } => {
                pool_execute(pool, move || task(conn));
                SubmitOutcome::Queued
            },
            _ => SubmitOutcome::Rejected(conn),
        }
    }

    /// Stop the singleton. Blocks until every task already handed to the
    /// pool has finished — the pool is drained, not dropped mid-flight —
    /// then releases the pool's threads. The contract records the drain:
    /// from the running phase, the retired pool — the very one that had
    /// been handed this singleton's submitted tasks — was drained before
    /// its release. Idempotent, and a no-op when the pool was never
    /// created. Afterwards no submission is ever accepted again. Must be
    /// called from outside the pool: a worker task that shut its own pool
    /// down would wait for itself.
    pub fn shutdown(&mut self)
        requires
            old(self).wf(),
        ensures
            final(self).wf(),
            final(self).phase() == shutdown_transition(old(self).phase()),
            !(old(self).phase() is Running) ==> *final(self) == *old(self),
            old(self).phase() is Running ==> final(self).drained_retired()
                && final(self).retired_submitted() == old(self).submitted(),
    {
        let mut taken = LifecycleState::Stopped;
        std::mem::swap(&mut self.state, &mut taken);
        match taken {
            LifecycleState::Running { pool, threads: _ } => {
                let mut pool = pool;
                pool_join(&mut pool);
                self.retired = Ghost(Some(pool));
                // dropping the drained pool here releases its threads
            },
            LifecycleState::Uninitialized => {
                self.state = LifecycleState::Uninitialized;
            },
            LifecycleState::Stopped => {},
        }
    }
}

/// Initializing twice never creates two pools and never loses the first:
/// after a successful `initialize(n1)`, an `initialize(n2)` — whatever `n2`
/// — reports the pool as already initialized and leaves exactly one pool,
/// sized `n1`.
pub proof fn lemma_initialize_idempotent(n1: usize, n2: usize)
    requires
        n1 >= 1,
    ensures
        ({
            let (p1, s1) = init_transition(PoolPhase::Uninitialized, n1);
            let (p2, s2) = init_transition(p1, n2);
            &&& s1 == InitStatus::Initialized
            &&& p1 == PoolPhase::Running(n1)
            &&& p2 == PoolPhase::Running(n1)
            &&& s2 == InitStatus::AlreadyInitialized
        }),
{
}

/// A submission is accepted only in the running phase: never before the pool
/// is initialized, and never once shutdown has run, whatever phase shutdown
/// ran from.
pub proof fn lemma_rejected_outside_running(p: PoolPhase)
    ensures
        !accepts_submissions(PoolPhase::Uninitialized),
        !accepts_submissions(PoolPhase::Stopped),
        !accepts_submissions(shutdown_transition(p)),
{
}

/// Shutdown is idempotent and final: a no-op when the pool was never
/// created, and once stopped the singleton stays stopped — not even
/// `initialize` runs it again.
pub proof fn lemma_shutdown_final(p: PoolPhase)
    ensures
        shutdown_transition(PoolPhase::Uninitialized) == PoolPhase::Uninitialized,
        p is Running || p is Stopped ==> shutdown_transition(p) == PoolPhase::Stopped,
        shutdown_transition(shutdown_transition(p)) == shutdown_transition(p),
        forall|n: usize| init_transition(PoolPhase::Stopped, n).0 == PoolPhase::Stopped,
{
}

} // verus!
