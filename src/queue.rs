//! The task queue: an unbounded multi-producer multi-consumer channel.
use vstd::prelude::*;

verus! {

#[verifier::external_type_specification]
#[verifier::external_body]
#[verifier::reject_recursive_types(T)]
pub struct ExSender<T>(crossbeam_channel::Sender<T>);

#[verifier::external_type_specification]
#[verifier::external_body]
#[verifier::reject_recursive_types(T)]
pub struct ExReceiver<T>(crossbeam_channel::Receiver<T>);

/// Relies on `crossbeam_channel::unbounded`: creates a channel without a
/// capacity bound and hands back its sending and its receiving end.
pub assume_specification<T>[ crossbeam_channel::unbounded::<T> ]() -> (
    crossbeam_channel::Sender<T>,
    crossbeam_channel::Receiver<T>,
);

/// Relies on `Clone for crossbeam_channel::Sender`: another sending end of the
/// same channel, holding the same shared counter.
pub assume_specification<T>[ <crossbeam_channel::Sender<T> as Clone>::clone ](
    s: &crossbeam_channel::Sender<T>,
) -> (r: crossbeam_channel::Sender<T>)
    ensures
        r == *s,
;

/// Relies on `Clone for crossbeam_channel::Receiver`: another receiving end of
/// the same channel, holding the same shared counter.
pub assume_specification<T>[ <crossbeam_channel::Receiver<T> as Clone>::clone ](
    r: &crossbeam_channel::Receiver<T>,
) -> (c: crossbeam_channel::Receiver<T>)
    ensures
        c == *r,
;

/// One handle on the task queue. Every handle holds both ends of the channel,
/// so as long as a handle exists the channel has a live sender and a live
/// receiver: sending never fails and receiving never reports a closed channel.
#[verifier::reject_recursive_types(T)]
pub struct TaskQueue<T> {
    tx: crossbeam_channel::Sender<T>,
    rx: crossbeam_channel::Receiver<T>,
}

/// Relies on `crossbeam_channel::Sender::send`: on a channel created by
/// `unbounded` it never blocks, and it fails only when every receiving end has
/// been dropped. `q` holds a receiving end, so the send succeeds.
#[verifier::external_body]
fn channel_send<T>(q: &TaskQueue<T>, task: T) -> (sent: bool)
    ensures
        sent,
{
    q.tx.send(task).is_ok()
}

/// Relies on `crossbeam_channel::Receiver::recv_timeout`: waits at most
/// `timeout_ms` milliseconds for a message and hands back the oldest one that
/// is there, or reports a timeout. What arrives depends on the other handles,
/// so nothing more is stated.
#[verifier::external_body]
fn channel_recv_timeout<T>(q: &TaskQueue<T>, timeout_ms: u64) -> (received: Option<T>) {
    match q.rx.recv_timeout(std::time::Duration::from_millis(timeout_ms)) {
        Ok(task) => Some(task),
        Err(_) => None,
    }
}

impl<T> TaskQueue<T> {
    /// Creates an empty queue and the first handle on it.
    pub fn new() -> (q: TaskQueue<T>) {
        let (tx, rx) = crossbeam_channel::unbounded::<T>();
        TaskQueue { tx, rx }
    }

    /// Another handle on the same queue.
    pub fn handle(&self) -> (q: TaskQueue<T>)
        ensures
            q == *self,
    {
        TaskQueue { tx: self.tx.clone(), rx: self.rx.clone() }
    }

    /// Enqueues `task` behind every task this caller enqueued before.
    /// Never blocks and never fails.
    pub fn enqueue(&self, task: T) {
        let sent = channel_send(self, task);
        assert(sent);
    }

    /// Waits up to `timeout_ms` milliseconds for a task; `None` on timeout.
    pub fn try_receive(&self, timeout_ms: u64) -> (received: Option<T>) {
        channel_recv_timeout(self, timeout_ms)
    }
}

} // verus!
