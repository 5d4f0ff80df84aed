use crossbeam_pool::pool::CrossbeamPoolError;
use crossbeam_pool::pool::Pool;
use crossbeam_pool::task::Task;
use crossbeam_pool::task::run_task;
use crossbeam_pool::task::shift_in;
use std::sync::Arc;
use std::sync::atomic::AtomicU64;
use std::sync::atomic::Ordering;

#[test]
fn zero_size_is_rejected() {
    crossbeam::thread::scope(|s| {
        let r = Pool::new(s, 0);
        assert!(matches!(r, Err(CrossbeamPoolError::InvalidSize)));
    })
    .unwrap();
}

#[test]
fn positive_sizes_give_exactly_that_many_workers() {
    crossbeam::thread::scope(|s| {
        for size in [1usize, 4, 9] {
            let mut pool = Pool::new(s, size).unwrap();
            assert_eq!(pool.worker_count(), size);
            let joined = pool.shutdown();
            let ids: Vec<usize> = joined.iter().map(|j| j.worker_id()).collect();
            let expected: Vec<usize> = (0..size).rev().collect();
            assert_eq!(ids, expected);
        }
    })
    .unwrap();
}

#[test]
fn hundred_tasks_all_run_exactly_once() {
    let counter = Arc::new(AtomicU64::new(0));
    crossbeam::thread::scope(|s| {
        let mut pool = Pool::new(s, 4).unwrap();
        assert_eq!(pool.worker_count(), 4);
        for _ in 0..100 {
            pool.execute(Task::Count(counter.clone())).unwrap();
        }
        let joined = pool.shutdown();
        // Shutdown has returned: nothing submitted before it is left unrun,
        // and every one of the four workers has been joined.
        assert_eq!(counter.load(Ordering::SeqCst), 100);
        assert_eq!(joined.len(), 4);
        assert_eq!(pool.worker_count(), 0);
    })
    .unwrap();
}

#[test]
fn failing_task_leaves_worker_alive() {
    let counter = Arc::new(AtomicU64::new(0));
    crossbeam::thread::scope(|s| {
        let mut pool = Pool::new(s, 1).unwrap();
        pool.execute(Task::Fail).unwrap();
        pool.execute(Task::Count(counter.clone())).unwrap();
        pool.shutdown();
        assert_eq!(counter.load(Ordering::SeqCst), 1);
    })
    .unwrap();
}

#[test]
fn execute_after_shutdown_reports_closed_and_returns_the_task() {
    let counter = Arc::new(AtomicU64::new(0));
    crossbeam::thread::scope(|s| {
        let mut pool = Pool::new(s, 2).unwrap();
        pool.shutdown();
        let r = pool.execute(Task::Count(counter.clone()));
        match r {
            Err(CrossbeamPoolError::Closed(task)) => {
                // The caller kept ownership of the refused task: it was
                // never queued, and can still be run by hand.
                assert_eq!(counter.load(Ordering::SeqCst), 0);
                assert!(run_task(task));
                assert_eq!(counter.load(Ordering::SeqCst), 1);
            },
            _ => panic!("a pool that is shut down must refuse the task as Closed"),
        }
    })
    .unwrap();
}

#[test]
fn shutdown_twice_is_safe() {
    crossbeam::thread::scope(|s| {
        let mut pool = Pool::new(s, 2).unwrap();
        assert_eq!(pool.shutdown().len(), 2);
        assert_eq!(pool.shutdown().len(), 0);
        assert_eq!(pool.worker_count(), 0);
    })
    .unwrap();
}

#[test]
fn single_worker_runs_tasks_in_submission_order() {
    let register = Arc::new(AtomicU64::new(0));
    crossbeam::thread::scope(|s| {
        let mut pool = Pool::new(s, 1).unwrap();
        pool.execute(Task::Record(register.clone(), 1)).unwrap();
        pool.execute(Task::Record(register.clone(), 2)).unwrap();
        pool.execute(Task::Record(register.clone(), 3)).unwrap();
        pool.shutdown();
        assert_eq!(register.load(Ordering::SeqCst), 10203);
    })
    .unwrap();
}

#[test]
fn record_leaves_full_register_unchanged() {
    let register = Arc::new(AtomicU64::new(u64::MAX));
    crossbeam::thread::scope(|s| {
        let mut pool = Pool::new(s, 1).unwrap();
        pool.execute(Task::Record(register.clone(), 7)).unwrap();
        pool.shutdown();
        assert_eq!(register.load(Ordering::SeqCst), u64::MAX);
    })
    .unwrap();
}

#[test]
fn dropping_an_open_pool_still_joins_its_workers() {
    let counter = Arc::new(AtomicU64::new(0));
    crossbeam::thread::scope(|s| {
        let mut pool = Pool::new(s, 3).unwrap();
        pool.execute(Task::Count(counter.clone())).unwrap();
        // The pool falls out of scope without an explicit shutdown: its
        // queue handles drop, the workers drain and terminate, and the
        // enclosing crossbeam scope joins them before it ends.
    })
    .unwrap();
    assert_eq!(counter.load(Ordering::SeqCst), 1);
}

#[test]
fn shift_in_appends_two_decimal_digits() {
    assert_eq!(shift_in(0, 1), Some(1));
    assert_eq!(shift_in(1, 2), Some(102));
    assert_eq!(shift_in(102, 3), Some(10203));
    assert_eq!(shift_in(5, 1234), Some(534));
    assert_eq!(shift_in(u64::MAX, 0), None);
    assert_eq!(shift_in(u64::MAX / 100 + 1, 0), None);
    assert_eq!(shift_in(u64::MAX / 100, 15), Some(u64::MAX / 100 * 100 + 15));
}

#[test]
fn run_task_reports_failure_only_for_fail() {
    let counter = Arc::new(AtomicU64::new(0));
    assert!(run_task(Task::Noop));
    assert!(run_task(Task::Count(counter.clone())));
    assert!(run_task(Task::Record(counter.clone(), 9)));
    assert!(!run_task(Task::Fail));
    assert_eq!(counter.load(Ordering::SeqCst), 109);
}
