//! The pool: size validation, task submission and shutdown.
//!
//! A `Pool` owns a fixed set of workers and the sending side of the shared
//! task queue. It is created inside a crossbeam thread scope, so its worker
//! threads may borrow data that lives as long as that scope: the pool joins
//! every worker before `shutdown` returns, and the scope joins whatever is
//! left before it ends, so no worker ever outlives what it borrowed.

use vstd::prelude::*;
use vstd::pervasive::unreached;
use crate::queue::TaskSender;
use crate::queue::clone_receiver;
use crate::queue::new_task_queue;
use crate::queue::send_task;
use crate::task::Task;
use crate::worker::Joined;
use crate::worker::join_worker;
use crate::worker::spawn_worker;

verus! {

/// The failure reasons a pool reports to its caller.
#[derive(Debug)]
pub enum CrossbeamPoolError {
    /// `Pool::new` was asked for a pool of zero workers.
    InvalidSize,
    /// `Pool::execute` was called after shutdown had begun: the task was
    /// not queued and comes back to the caller untouched.
    Closed(Task),
}

/// What `Pool::new` hands back: the pool, or the reason there is none.
pub type CrossbeamPoolResult<'scope> = Result<Pool<'scope>, CrossbeamPoolError>;

/// One worker: its identifier and the handle of its scoped thread.
struct CrossbeamWorker<'scope> {
    id: usize,
    thread: crossbeam::thread::ScopedJoinHandle<'scope, ()>,
}

/// A fixed-size pool of worker threads fed from one shared task queue.
pub struct Pool<'scope> {
    workers: Vec<CrossbeamWorker<'scope>>,
    queue: Option<TaskSender>,
    closed: bool,
}

impl<'scope> Pool<'scope> {
    /// Whether shutdown has begun on this pool.
    pub closed spec fn shut_down(self) -> bool {
        self.closed
    }

    /// How many workers the pool still owns: its configured size until
    /// shutdown, zero once every worker has been joined.
    pub closed spec fn size(self) -> nat {
        self.workers@.len()
    }

    /// The identifiers of the workers the pool still owns, in the order
    /// they were spawned.
    pub closed spec fn worker_ids(self) -> Seq<nat> {
        self.workers@.map(|i: int, w: CrossbeamWorker<'scope>| w.id as nat)
    }

    /// Every task handed to the pool's queue since its creation, oldest
    /// first, while the pool is open; shutdown drops the queue and its log
    /// with it.
    pub closed spec fn submitted(self) -> Seq<Task> {
        match self.queue {
            Some(queue) => queue.sent(),
            None => Seq::empty(),
        }
    }

    /// The pool's invariant. While the pool is open it holds at least one
    /// worker and the sending side of its queue; once shut down it holds
    /// neither a queue handle nor an unjoined worker. Worker identifiers
    /// ascend from zero in spawn order.
    pub closed spec fn wf(self) -> bool {
        &&& (!self.closed ==> self.queue is Some && self.workers@.len() >= 1)
        &&& (self.closed ==> self.queue is None && self.workers@.len() == 0)
        &&& (forall|i: int| 0 <= i < self.workers@.len() ==> self.workers@[i].id == i)
    }

    /// Builds a pool of exactly `size` workers, each bound to the consumer
    /// side of a fresh task queue and spawned on `scope`, idle until tasks
    /// arrive. A requested size of zero, and only that, is rejected, with
    /// `InvalidSize` and no thread spawned.
    pub fn new<'env>(
        scope: &'scope crossbeam::thread::Scope<'env>,
        size: usize,
    ) -> (r: CrossbeamPoolResult<'scope>)
        ensures
            r is Ok <==> size >= 1,
            size == 0 ==> (r matches Err(e) && e is InvalidSize),
            r matches Ok(pool) ==> pool.wf() && !pool.shut_down() && pool.size() == size
                && pool.submitted() == Seq::<Task>::empty()
                && pool.worker_ids() == Seq::new(size as nat, |i: int| i as nat),
    {
        if size == 0 {
            return Err(CrossbeamPoolError::InvalidSize);
        }
        let (queue, receiver) = new_task_queue();
        let mut workers: Vec<CrossbeamWorker<'scope>> = Vec::new();
        let mut id: usize = 0;
        while id < size
            invariant
                id <= size,
                workers@.len() == id,
                forall|i: int| 0 <= i < workers@.len() ==> workers@[i].id == i,
            decreases size - id,
        {
            let thread = spawn_worker(scope, clone_receiver(&receiver));
            workers.push(CrossbeamWorker { id, thread });
            id = id + 1;
        }
        let pool = Pool { workers, queue: Some(queue), closed: false };
        proof {
            assert(pool.worker_ids() =~= Seq::new(size as nat, |i: int| i as nat));
        }
        Ok(pool)
    }

    /// Hands one task to the queue and returns without waiting for it to
    /// run: some worker will pick it up. Succeeds, and appends the task to
    /// the log of what was submitted, exactly as long as shutdown has not
    /// begun; afterwards nothing is queued and the very task comes back to
    /// the caller untouched inside `Closed`, so no task is ever dropped in
    /// silence.
    pub fn execute(&mut self, task: Task) -> (r: Result<(), CrossbeamPoolError>)
        requires
            old(self).wf(),
        ensures
            final(self).wf(),
            r is Ok <==> !old(self).shut_down(),
            old(self).shut_down() ==> r == Err::<(), CrossbeamPoolError>(
                CrossbeamPoolError::Closed(task),
            ) && *final(self) == *old(self),
            !old(self).shut_down() ==> final(self).submitted()
                == old(self).submitted().push(task)
                && !final(self).shut_down()
                && final(self).size() == old(self).size()
                && final(self).worker_ids() == old(self).worker_ids(),
    {
        if self.closed {
            return Err(CrossbeamPoolError::Closed(task));
        }
        match &mut self.queue {
            Some(queue) => {
                match send_task(queue, task) {
                    Ok(()) => Ok(()),
                    Err(_back) => unreached(),
                }
            },
            None => unreached(),
        }
    }

    /// Begins shutdown if it has not begun and blocks until every worker is
    /// gone: closes the queue by dropping the pool's sending side, so the
    /// workers drain what was already submitted and terminate, then joins
    /// each worker thread in turn, youngest first, and hands back the
    /// evidence of one join per worker the pool owned, each worker's
    /// exactly once. Safe to call again: a second call finds nothing to
    /// close, nothing to join, and hands back no evidence.
    pub fn shutdown(&mut self) -> (joined: Vec<Joined>)
        requires
            old(self).wf(),
        ensures
            final(self).wf(),
            final(self).shut_down(),
            final(self).size() == 0,
            joined@.len() == old(self).size(),
            forall|i: int| 0 <= i < joined@.len()
                ==> joined@[i].id() == old(self).size() - 1 - i,
    {
        self.closed = true;
        self.queue = None;
        let mut joined: Vec<Joined> = Vec::new();
        while self.workers.len() > 0
            invariant
                self.closed,
                self.queue is None,
                joined@.len() + self.workers@.len() == old(self).size(),
                forall|i: int| 0 <= i < self.workers@.len() ==> self.workers@[i].id == i,
                forall|i: int| 0 <= i < joined@.len()
                    ==> joined@[i].id() == old(self).size() - 1 - i,
            decreases self.workers@.len(),
        {
            match self.workers.pop() {
                Some(worker) => {
                    let token = join_worker(worker.thread, worker.id);
                    joined.push(token);
                },
                None => {},
            }
        }
        joined
    }

    /// How many workers the pool still owns.
    pub fn worker_count(&self) -> (n: usize)
        ensures
            n == self.size(),
    {
        self.workers.len()
    }
}

} // verus!
