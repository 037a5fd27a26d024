//! The worker pool: the registered worker handles, the shared stop flag and
//! the task queue, with the lifecycle operations on them.
use std::sync::Arc;
use std::sync::atomic::{AtomicBool, Ordering};
use vstd::prelude::*;
use crate::queue::TaskQueue;
use crate::worker::WorkerContext;

verus! {

/// Relies on `Clone for std::sync::Arc`: the clone points to the same flag.
#[verifier::external_body]
fn share_flag(flag: &Arc<AtomicBool>) -> (r: Arc<AtomicBool>)
    ensures
        r == *flag,
{
    Arc::clone(flag)
}

/// Whether `handle` is one that `start` can return for a worker that takes
/// tasks from `queue` and reads `stop_flag`.
pub open spec fn started_by<T, H, F: Fn(WorkerContext<T>) -> H>(
    start: F,
    handle: H,
    queue: TaskQueue<T>,
    stop_flag: Arc<AtomicBool>,
) -> bool {
    exists|c: WorkerContext<T>|
        c.queue() == queue && c.stop_flag() == stop_flag && call_ensures(start, (c,), handle)
}

/// A pool of workers sharing one task queue and one stop flag. `H` is the
/// handle by which the caller waits on a worker it started.
#[verifier::reject_recursive_types(T)]
pub struct ThreadPool<T, H> {
    queue: TaskQueue<T>,
    stop_flag: Arc<AtomicBool>,
    workers: Vec<H>,
    stop_requested: Ghost<bool>,
}

impl<T, H> ThreadPool<T, H> {
    /// The handles of the registered workers, oldest first.
    pub closed spec fn workers(&self) -> Seq<H> {
        self.workers@
    }

    /// The pool's own handle on the task queue.
    pub closed spec fn queue(&self) -> TaskQueue<T> {
        self.queue
    }

    /// The stop flag shared by the pool and its workers.
    pub closed spec fn stop_flag(&self) -> Arc<AtomicBool> {
        self.stop_flag
    }

    /// Whether `stop` has been called on this pool.
    pub closed spec fn stop_requested(&self) -> bool {
        self.stop_requested@
    }

    /// The number of registered workers.
    pub fn worker_count(&self) -> (count: usize)
        ensures
            count == self.workers().len(),
    {
        self.workers.len()
    }

    /// A pool with an empty queue, a clear stop flag and no worker.
    pub fn new() -> (p: ThreadPool<T, H>)
        ensures
            p.workers() == Seq::<H>::empty(),
            !p.stop_requested(),
    {
        ThreadPool {
            queue: TaskQueue::new(),
            stop_flag: Arc::new(AtomicBool::new(false)),
            workers: Vec::new(),
            stop_requested: Ghost(false),
        }
    }

    /// Starts `n` more workers: for each, `start` gets the worker's view of
    /// the pool, built on this pool's own queue and stop flag, and returns the
    /// handle, which is appended to the pool.
    pub fn spawn<F: Fn(WorkerContext<T>) -> H>(&mut self, n: u32, start: F) -> (ok: bool)
        requires
            forall|c: WorkerContext<T>| call_requires(start, (c,)),
        ensures
            ok,
            final(self).workers().len() == old(self).workers().len() + n,
            final(self).workers().subrange(0, old(self).workers().len() as int)
                == old(self).workers(),
            forall|i: int|
                old(self).workers().len() <= i < final(self).workers().len() ==> started_by(
                    start,
                    final(self).workers()[i],
                    old(self).queue(),
                    old(self).stop_flag(),
                ),
            final(self).stop_requested() == old(self).stop_requested(),
            final(self).queue() == old(self).queue(),
            final(self).stop_flag() == old(self).stop_flag(),
        final(self).queue() == old(self).queue(),
        final(self).stop_flag() == old(self).stop_flag(),
    {
        let ghost before = self.workers@;
        let mut i: u32 = 0;
        while i < n
            invariant
                i <= n,
                self.workers@.len() == before.len() + i,
                self.workers@.subrange(0, before.len() as int) == before,
                self.stop_requested == old(self).stop_requested,
                self.queue == old(self).queue,
                self.stop_flag == old(self).stop_flag,
                forall|c: WorkerContext<T>| call_requires(start, (c,)),
                forall|j: int|
                    before.len() <= j < self.workers@.len() ==> started_by(
                        start,
                        self.workers@[j],
                        old(self).queue,
                        old(self).stop_flag,
                    ),
            decreases n - i,
        {
            let context = WorkerContext::new(self.queue.handle(), share_flag(&self.stop_flag));
            let ghost given = context;
            let handle = start(context);
            assert(call_ensures(start, (given,), handle));
            self.workers.push(handle);
            assert(self.workers@[self.workers@.len() - 1] == handle);
            i = i + 1;
        }
        true
    }

    /// Enqueues `task` for the workers; returns without waiting for it.
    pub fn push_task(&self, task: T) {
        self.queue.enqueue(task);
    }

    /// Asks every worker to leave its loop. Does not wait, and leaves queued
    /// and running tasks alone. Calling it again changes nothing.
    pub fn stop(&mut self)
        ensures
            final(self).stop_requested(),
            final(self).workers() == old(self).workers(),
            final(self).queue() == old(self).queue(),
            final(self).stop_flag() == old(self).stop_flag(),
    {
        self.stop_flag.store(true, Ordering::Relaxed);
        self.stop_requested = Ghost(true);
    }

    /// Hands every registered worker handle to `wait` and forgets them: each
    /// worker is joined once.
    pub fn join<F: Fn(H)>(&mut self, wait: F)
        requires
            forall|h: H| call_requires(wait, (h,)),
        ensures
            final(self).workers() == Seq::<H>::empty(),
            forall|i: int|
                0 <= i < old(self).workers().len() ==> call_ensures(
                    wait,
                    (old(self).workers()[i],),
                    (),
                ),
            final(self).stop_requested() == old(self).stop_requested(),
            final(self).queue() == old(self).queue(),
            final(self).stop_flag() == old(self).stop_flag(),
        final(self).queue() == old(self).queue(),
        final(self).stop_flag() == old(self).stop_flag(),
    {
        let ghost before = self.workers@;
        let ghost mut done: int = 0;
        while self.workers.len() > 0
            invariant
                0 <= done <= before.len(),
                self.workers@ == before.subrange(done, before.len() as int),
                forall|i: int| 0 <= i < done ==> call_ensures(wait, (before[i],), ()),
                forall|h: H| call_requires(wait, (h,)),
                self.stop_requested == old(self).stop_requested,
                self.queue == old(self).queue,
                self.stop_flag == old(self).stop_flag,
            decreases self.workers@.len(),
        {
            let handle = self.workers.remove(0);
            wait(handle);
            proof {
                done = done + 1;
            }
        }
        assert(self.workers@ =~= Seq::<H>::empty());
    }
}

/// Starts `n` more workers on `pool`; see `ThreadPool::spawn`. The number of
/// registered workers grows by exactly `n`, and the earlier ones stay.
pub fn spawn_threads<T, H, F: Fn(WorkerContext<T>) -> H>(
    pool: &mut ThreadPool<T, H>,
    n: u32,
    start: F,
) -> (ok: bool)
    requires
        forall|c: WorkerContext<T>| call_requires(start, (c,)),
    ensures
        ok,
        final(pool).workers().len() == old(pool).workers().len() + n,
        final(pool).workers().subrange(0, old(pool).workers().len() as int)
            == old(pool).workers(),
        forall|i: int|
            old(pool).workers().len() <= i < final(pool).workers().len() ==> started_by(
                start,
                final(pool).workers()[i],
                old(pool).queue(),
                old(pool).stop_flag(),
            ),
        final(pool).stop_requested() == old(pool).stop_requested(),
        final(pool).queue() == old(pool).queue(),
        final(pool).stop_flag() == old(pool).stop_flag(),
{
    pool.spawn(n, start)
}

/// Enqueues `task` on `pool` and returns at once, whether or not any worker
/// has been started yet.
pub fn push_task<T, H>(pool: &ThreadPool<T, H>, task: T) {
    pool.push_task(task)
}

/// Sets the stop flag of `pool`; see `ThreadPool::stop`.
pub fn stop<T, H>(pool: &mut ThreadPool<T, H>)
    ensures
        final(pool).stop_requested(),
        final(pool).workers() == old(pool).workers(),
        final(pool).queue() == old(pool).queue(),
        final(pool).stop_flag() == old(pool).stop_flag(),
{
    pool.stop()
}

/// Waits, through `wait`, on every worker registered on `pool`, and forgets
/// them; see `ThreadPool::join`.
pub fn join<T, H, F: Fn(H)>(pool: &mut ThreadPool<T, H>, wait: F)
    requires
        forall|h: H| call_requires(wait, (h,)),
    ensures
        final(pool).workers() == Seq::<H>::empty(),
        forall|i: int|
            0 <= i < old(pool).workers().len() ==> call_ensures(
                wait,
                (old(pool).workers()[i],),
                (),
            ),
        final(pool).stop_requested() == old(pool).stop_requested(),
        final(pool).queue() == old(pool).queue(),
        final(pool).stop_flag() == old(pool).stop_flag(),
{
    pool.join(wait)
}

/// Joining is safe to repeat: a join leaves the pool without worker handles,
/// so a second join has no handle to hand to its waiting function and leaves
/// the pool as it found it.
pub proof fn lemma_second_join_waits_on_nothing<T, H>(joined: ThreadPool<T, H>)
    requires
        joined.workers() == Seq::<H>::empty(),
    ensures
        joined.workers().len() == 0,
{
}

} // verus!
