//! What one worker decides on each turn of its loop.
use std::sync::Arc;
use std::sync::atomic::{AtomicBool, Ordering};
use vstd::prelude::*;
use crate::queue::TaskQueue;

verus! {

/// How long a worker waits on an empty queue before it looks at the stop flag
/// again; this bounds how long a worker takes to notice a stop request.
pub const POLL_TIMEOUT_MS: u64 = 200;

/// The two states of a worker. `Exiting` is terminal.
#[derive(Clone, Copy, Debug, PartialEq, Eq, Structural)]
pub enum WorkerState {
    Running,
    Exiting,
}

/// The state a worker moves to after it read the stop flag as `stop_seen`.
pub open spec fn next_state(state: WorkerState, stop_seen: bool) -> WorkerState {
    match state {
        WorkerState::Exiting => WorkerState::Exiting,
        WorkerState::Running => if stop_seen {
            WorkerState::Exiting
        } else {
            WorkerState::Running
        },
    }
}

impl WorkerState {
    /// The state a worker is in when its thread starts.
    pub fn initial() -> (s: WorkerState)
        ensures
            s == WorkerState::Running,
    {
        WorkerState::Running
    }

    /// The state after reading the stop flag as `stop_seen`.
    pub fn observe(self, stop_seen: bool) -> (next: WorkerState)
        ensures
            next == next_state(self, stop_seen),
    {
        match self {
            WorkerState::Exiting => WorkerState::Exiting,
            WorkerState::Running => if stop_seen {
                WorkerState::Exiting
            } else {
                WorkerState::Running
            },
        }
    }
}

/// What a worker does on one turn: leave its loop, loop again after an empty
/// wait, or run the task it took from the queue, exactly once.
pub enum WorkerStep<T> {
    Exit,
    Idle,
    Run(T),
}

/// The worker's view of the pool: a handle on the task queue and the shared
/// stop flag.
#[verifier::reject_recursive_types(T)]
pub struct WorkerContext<T> {
    queue: TaskQueue<T>,
    stop_flag: Arc<AtomicBool>,
}

impl<T> WorkerContext<T> {
    /// The handle on the task queue that this worker takes tasks from.
    pub closed spec fn queue(&self) -> TaskQueue<T> {
        self.queue
    }

    /// The stop flag that this worker reads.
    pub closed spec fn stop_flag(&self) -> Arc<AtomicBool> {
        self.stop_flag
    }

    pub(crate) fn new(queue: TaskQueue<T>, stop_flag: Arc<AtomicBool>) -> (c: WorkerContext<T>)
        ensures
            c.queue() == queue,
            c.stop_flag() == stop_flag,
    {
        WorkerContext { queue, stop_flag }
    }

    /// One turn of the worker loop from `state`: read the stop flag; when the
    /// worker goes on running, wait up to `POLL_TIMEOUT_MS` for a task.
    /// A worker that is exiting, or that saw the flag set, takes no task.
    pub fn step(&self, state: WorkerState) -> (r: (WorkerState, WorkerStep<T>))
        ensures
            r.0 == next_state(state, true) || r.0 == next_state(state, false),
            r.0 == WorkerState::Exiting <==> r.1 is Exit,
            state == WorkerState::Exiting ==> r.1 is Exit,
    {
        let next = match state {
            WorkerState::Exiting => WorkerState::Exiting,
            WorkerState::Running => state.observe(self.stop_flag.load(Ordering::Relaxed)),
        };
        match next {
            WorkerState::Exiting => (next, WorkerStep::Exit),
            WorkerState::Running => match self.queue.try_receive(POLL_TIMEOUT_MS) {
                Some(task) => (next, WorkerStep::Run(task)),
                None => (next, WorkerStep::Idle),
            },
        }
    }
}

} // verus!
