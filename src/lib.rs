//! A fixed-lifecycle pool of background workers that pull tasks from a shared
//! unbounded queue, with explicit spawn, submit, stop and join operations.
//!
//! The pool keeps the bookkeeping (the registered worker handles, the shared
//! stop flag, the queue) and the decisions of each worker; starting and waiting
//! on operating-system threads is left to the caller, which hands the pool a
//! function that starts one worker and a function that waits on one.

pub mod queue;
pub mod worker;
pub mod pool;

pub use pool::{join, push_task, spawn_threads, stop, ThreadPool};
pub use worker::{WorkerContext, WorkerState, WorkerStep};
