//! Tasks: the units of work a pool runs.
//!
//! A task is a zero-argument unit of work, modelled as a closed set of task
//! kinds. Running a task reports success or failure as a value, so a failing
//! task is contained in its own run and can never take a worker down.

use vstd::prelude::*;
use std::sync::Arc;
use std::sync::atomic::AtomicU64;
use std::sync::atomic::Ordering;

verus! {

/// One unit of work for the pool. Tasks own everything they touch, so they
/// can move to whichever worker thread picks them up.
#[derive(Debug)]
pub enum Task {
    /// Add one to a shared counter.
    Count(Arc<AtomicU64>),
    /// Append `k`'s last two decimal digits to a shared register, treating
    /// the register's value as a base-100 log of what ran, in order.
    Record(Arc<AtomicU64>, u64),
    /// Report failure without doing anything.
    Fail,
    /// Do nothing and succeed.
    Noop,
}

impl Task {
    /// Whether a run of the task reports failure.
    pub open spec fn fails(self) -> bool {
        self is Fail
    }
}

/// The value a `Record` task writes over a register holding `v`: `v` shifted
/// left by one base-100 digit, with `k`'s last two decimal digits appended.
/// `None` when that no longer fits in the register.
pub fn shift_in(v: u64, k: u64) -> (r: Option<u64>)
    ensures
        r is Some <==> v * 100 + k % 100 <= u64::MAX,
        r matches Some(n) ==> n == v * 100 + k % 100,
{
    match v.checked_mul(100) {
        Some(m) => m.checked_add(k % 100),
        None => None,
    }
}

/// Relies on std::sync::atomic::AtomicU64::fetch_update: atomically replaces
/// the register's value `v` by `shift_in(v, k)` when that is `Some`, and
/// leaves the register unchanged when it is `None`.
#[verifier::external_body]
pub(crate) fn record_digits(register: &AtomicU64, k: u64) {
    let _ = register.fetch_update(Ordering::SeqCst, Ordering::SeqCst, |v| shift_in(v, k));
}

/// Runs one task to completion and reports whether it succeeded. A task's
/// failure is returned as a value, never propagated: exactly the `Fail` kind
/// reports failure.
pub fn run_task(task: Task) -> (ok: bool)
    ensures
        ok == !task.fails(),
{
    match task {
        Task::Count(counter) => {
            let _previous = counter.fetch_add(1, Ordering::SeqCst);
            true
        },
        Task::Record(register, k) => {
            record_digits(&register, k);
            true
        },
        Task::Fail => false,
        Task::Noop => true,
    }
}

} // verus!
