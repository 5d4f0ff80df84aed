//! The task queue: a multi-producer, multi-consumer channel of tasks.
//!
//! The queue is crossbeam's unbounded channel. Submitters hold the one
//! `TaskSender`, which carries the ghost log of everything it has sent;
//! every worker holds a clone of the `Receiver` and blocks on it while
//! idle. Dropping the last `Sender` closes the queue: a blocked receiver
//! then drains what is left and is told that nothing more comes.

use vstd::prelude::*;
use crate::task::Task;

verus! {

#[verifier::external_type_specification]
#[verifier::external_body]
#[verifier::reject_recursive_types(T)]
pub struct ExSender<T>(crossbeam::channel::Sender<T>);

#[verifier::external_type_specification]
#[verifier::external_body]
#[verifier::reject_recursive_types(T)]
pub struct ExReceiver<T>(crossbeam::channel::Receiver<T>);

/// The sending side of one task queue, with the ghost log of every task it
/// has sent. The two handles are of the same channel: all three fields are
/// private to this module, only `new_task_queue` ever builds a value, and
/// only `send_task` ever grows the log. So as long as a `TaskSender` lives,
/// its channel has a live receiver and cannot be disconnected, and `sent()`
/// lists exactly what went over it.
pub struct TaskSender {
    sender: crossbeam::channel::Sender<Task>,
    keep: crossbeam::channel::Receiver<Task>,
    log: Ghost<Seq<Task>>,
}

impl TaskSender {
    /// Every task handed to the queue through this sender, oldest first.
    pub closed spec fn sent(self) -> Seq<Task> {
        self.log@
    }
}

/// Relies on crossbeam::channel::unbounded: a fresh queue with no tasks in
/// it, as its one sending handle and two receiving handles, all three of
/// the same channel. A send on an unbounded channel never blocks.
#[verifier::external_body]
fn raw_task_queue() -> (q: (
    crossbeam::channel::Sender<Task>,
    crossbeam::channel::Receiver<Task>,
    crossbeam::channel::Receiver<Task>,
)) {
    let (sender, receiver) = crossbeam::channel::unbounded();
    let keep = receiver.clone();
    (sender, keep, receiver)
}

/// Builds one task queue: a sending side that has sent nothing yet, and
/// the receiving handle the workers will share.
pub(crate) fn new_task_queue() -> (q: (TaskSender, crossbeam::channel::Receiver<Task>))
    ensures
        q.0.sent() == Seq::<Task>::empty(),
{
    let (sender, keep, receiver) = raw_task_queue();
    (TaskSender { sender, keep, log: Ghost(Seq::empty()) }, receiver)
}

/// Relies on crossbeam::channel::Receiver::clone: another receiving handle
/// to the same queue.
#[verifier::external_body]
pub(crate) fn clone_receiver(
    receiver: &crossbeam::channel::Receiver<Task>,
) -> (clone: crossbeam::channel::Receiver<Task>) {
    receiver.clone()
}

/// Relies on crossbeam::channel::Sender::send: an unbounded send fails only
/// when every receiving handle of its channel has been dropped, and `queue`
/// holds a receiving handle of the very channel it sends on for the whole
/// call, so the task is placed at the tail of the queue and `Ok` comes
/// back, with the task appended to the ghost log of what was sent.
#[verifier::external_body]
pub(crate) fn send_task(queue: &mut TaskSender, task: Task) -> (r: Result<(), Task>)
    ensures
        r is Ok,
        final(queue).sent() == old(queue).sent().push(task),
{
    match queue.sender.send(task) {
        Ok(()) => Ok(()),
        Err(back) => Err(back.0),
    }
}

/// Relies on crossbeam::channel::Receiver::recv: blocks until either a task
/// is in the queue (`Some`, with the task at the head removed) or every
/// sending handle has been dropped and the queue is empty (`None`).
#[verifier::external_body]
pub(crate) fn recv_task(
    receiver: &crossbeam::channel::Receiver<Task>,
) -> (t: Option<Task>) {
    receiver.recv().ok()
}

} // verus!
