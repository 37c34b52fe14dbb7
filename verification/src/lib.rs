//! A forward-secure random byte source for a pool of pipe writers.
//!
//! The crate holds the generator (a ChaCha20 ratchet with fast key erasure),
//! the state machine that one writer follows against its pipe endpoint, and
//! the bookkeeping of the pool: the workers it plans, the shutdown request
//! and the aggregate of the workers' failures.
//!
//! Nothing here opens a file, sleeps or spawns a thread. A pool is planned
//! with `stream::start_workers`; each of its `workers::WorkerSpec`s becomes a
//! `stream::Worker` in a thread of the caller's. The caller does what the
//! worker's `stream::Action` asks for and reports the `stream::Event` that
//! came of it to `Worker::step`, until the worker asks to exit. What the
//! threads returned goes to `stream::join_workers`.

pub mod common;
pub mod error;
pub mod rng;
pub mod stream;
pub mod workers;
