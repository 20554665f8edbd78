//! Trusted boundary to the `threadpool` crate.
//!
//! The worker pool itself — a fixed set of long-lived OS threads consuming a
//! shared task queue — is provided by `threadpool::ThreadPool`. Verus sees
//! that type as opaque; the wrappers below state, and the verifier believes,
//! what the pool's own source shows of the three operations this crate uses:
//! construction, job submission, and the blocking drain.
//!
//! Two ghost measures name what the contracts need of a pool value: how many
//! jobs it has been handed ([`pool_jobs`]), and whether it has been drained
//! of all of them ([`pool_drained`]). The wrappers that change a pool take it
//! `&mut`, so each states how the measures of the value after relate to the
//! value before; only the drain establishes [`pool_drained`].

use vstd::prelude::*;

verus! {

#[verifier::external_type_specification]
#[verifier::external_body]
pub struct ExThreadPool(threadpool::ThreadPool);

/// The number of worker threads a pool was built with.
pub uninterp spec fn pool_width(p: threadpool::ThreadPool) -> usize;

/// The number of jobs a pool has been handed over its life.
pub uninterp spec fn pool_jobs(p: threadpool::ThreadPool) -> nat;

/// Whether every job the pool was handed has finished executing. Established
/// only by [`pool_join`]'s contract; handing the pool another job leaves it
/// unknown again.
pub uninterp spec fn pool_drained(p: threadpool::ThreadPool) -> bool;

/// Relies on `threadpool::ThreadPool::new`: builds a pool whose workers are
/// spawned before it returns, capable of running exactly `num_threads` jobs
/// concurrently (`max_count` reports that number), with no job handed to it
/// yet (its queued and active counts start at zero). `new` panics when
/// `num_threads` is 0, so that count is excluded here.
#[verifier::external_body]
pub(crate) fn pool_new(num_threads: usize) -> (p: threadpool::ThreadPool)
    requires
        num_threads >= 1,
    ensures
        pool_width(p) == num_threads,
        pool_jobs(p) == 0,
{
    threadpool::ThreadPool::new(num_threads)
}

/// Relies on `threadpool::ThreadPool::execute`: queues `job`, to be taken off
/// the queue and run exactly once by some idle worker thread; the call itself
/// returns without waiting, and neither resizes the pool nor touches any
/// other job. A job that panics is counted and its worker replaced (the
/// pool's sentinel respawns the thread), so one failing task never stops the
/// pool from serving later ones. The send inside `execute` can fail only when
/// the job channel's receiver is gone, and the pool handle's own shared state
/// holds that receiver, so no panic on admitted inputs. The demand is only
/// that the job's own precondition hold when a worker runs it.
#[verifier::external_body]
pub(crate) fn pool_execute<F: FnOnce() + Send + 'static>(p: &mut threadpool::ThreadPool, job: F)
    requires
        call_requires(job, ()),
    ensures
        pool_jobs(*final(p)) == pool_jobs(*old(p)) + 1,
        pool_width(*final(p)) == pool_width(*old(p)),
{
    p.execute(job)
}

/// Relies on `threadpool::ThreadPool::join`: blocks the calling thread until
/// every job queued on the pool before this call has finished executing (its
/// queued and active counts have both reached zero) — the pool comes back
/// drained, no job handed to it and none taken from it. Its documentation
/// warns that a join from a thread of the pool itself deadlocks; no task
/// this crate queues calls back into the pool, so the caller of the drain
/// must not be a pool worker.
#[verifier::external_body]
pub(crate) fn pool_join(p: &mut threadpool::ThreadPool)
    ensures
        pool_drained(*final(p)),
        pool_jobs(*final(p)) == pool_jobs(*old(p)),
        pool_width(*final(p)) == pool_width(*old(p)),
{
    p.join()
}

} // verus!
