//! A fixed-size worker pool on crossbeam's scoped threads.
//!
//! A `Pool` owns a bounded set of worker threads that pull tasks from a
//! shared queue and run them until the pool is shut down. Shutting down
//! closes the queue, lets the workers drain it, and joins every worker
//! thread before returning.

pub mod pool;
pub mod queue;
pub mod task;
pub mod worker;
