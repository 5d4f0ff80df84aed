//! The worker loop, and the scoped threads it runs on.
//!
//! A worker repeatedly pulls a task from the shared queue and runs it to
//! completion, looping until the queue is closed and drained, then returns.
//! A failing task is dropped and the loop goes on: failure never ends a
//! worker. Worker threads are crossbeam scoped threads, so even a pool that
//! is never shut down explicitly has every thread joined before the
//! enclosing scope ends.

use vstd::prelude::*;
use crate::queue::recv_task;
use crate::task::Task;
use crate::task::run_task;

verus! {

#[verifier::external_type_specification]
#[verifier::external_body]
pub struct ExScope<'env>(crossbeam::thread::Scope<'env>);

#[verifier::external_type_specification]
#[verifier::external_body]
#[verifier::reject_recursive_types(T)]
pub struct ExScopedJoinHandle<'scope, T>(crossbeam::thread::ScopedJoinHandle<'scope, T>);

/// What one worker did over its whole life: how many tasks it ran, and how
/// many of those reported failure.
pub struct WorkerStats {
    pub ran: u64,
    pub failed: u64,
}

/// One worker's whole life: pull a task, run it, go idle again; stop when
/// the queue reports closed-and-empty. The tally never counts more failures
/// than runs, and a failing task never breaks the loop. The loop provably
/// makes progress: a single worker retires after `u64::MAX` tasks, a bound
/// no real workload reaches.
pub(crate) fn worker_loop(receiver: crossbeam::channel::Receiver<Task>) -> (stats: WorkerStats)
    ensures
        stats.failed <= stats.ran,
{
    let mut ran: u64 = 0;
    let mut failed: u64 = 0;
    while ran < u64::MAX
        invariant
            failed <= ran,
        decreases u64::MAX - ran,
    {
        match recv_task(&receiver) {
            Some(task) => {
                let ok = run_task(task);
                ran = ran + 1;
                if !ok {
                    failed = failed + 1;
                }
            },
            None => {
                break;
            },
        }
    }
    WorkerStats { ran, failed }
}

/// Relies on crossbeam::thread::Scope::spawn: starts one scoped thread that
/// runs the worker loop on the given receiving handle; the scope joins the
/// thread no later than when the scope itself ends. Panics only if the
/// operating system cannot create a thread, a panic the enclosing scope
/// catches and surfaces in its own result.
#[verifier::external_body]
pub(crate) fn spawn_worker<'env, 'scope>(
    scope: &'scope crossbeam::thread::Scope<'env>,
    receiver: crossbeam::channel::Receiver<Task>,
) -> (handle: crossbeam::thread::ScopedJoinHandle<'scope, ()>) {
    scope.spawn(move |_| {
        let _ = worker_loop(receiver);
    })
}

/// Evidence that one worker's thread was joined. The field is private to
/// this module and only `join_worker` ever builds a value, one for each
/// thread it has joined, so holding a `Joined` means one join really
/// happened.
pub struct Joined {
    id: usize,
}

impl Joined {
    /// The identifier of the worker whose thread was joined.
    pub closed spec fn id(self) -> nat {
        self.id as nat
    }

    /// The identifier of the worker whose thread was joined.
    pub fn worker_id(&self) -> (n: usize)
        ensures
            n == self.id(),
    {
        self.id
    }
}

/// Relies on crossbeam::thread::ScopedJoinHandle::join: blocks the caller
/// until the worker thread behind the handle has terminated, and only then
/// hands back the evidence that worker `id` was joined.
#[verifier::external_body]
pub(crate) fn join_worker<'scope>(
    handle: crossbeam::thread::ScopedJoinHandle<'scope, ()>,
    id: usize,
) -> (j: Joined)
    ensures
        j.id() == id,
{
    let _ = handle.join();
    Joined { id }
}

} // verus!
