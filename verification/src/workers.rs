//! What a worker thread is given, and the pool that plans the workers.

use crate::error::{ErrorKind, IoFailure, Result};
use crate::stream::{failures, join_workers, reports};
use std::sync::atomic::AtomicBool;
use std::sync::atomic::Ordering;
use std::sync::Arc;
use vstd::prelude::*;

verus! {

/// `Arc::clone` of std: one more handle on the same flag.
#[verifier::external_body]
fn share_flag(flag: &Arc<AtomicBool>) -> (shared: Arc<AtomicBool>)
    ensures
        shared == *flag,
{
    Arc::clone(flag)
}

/// What one worker thread is given: where the pipe is, and the flag that
/// tells it whether to go on.
#[derive(Debug)]
pub struct WorkerSpec {
    /// Path to the named pipe.
    path: String,
    /// The pool's flag: true while the workers are to run.
    running: Arc<AtomicBool>,
}

impl WorkerSpec {
    /// The path to the named pipe.
    pub closed spec fn path_view(&self) -> Seq<char> {
        self.path@
    }

    /// The flag that the worker watches.
    pub closed spec fn flag(&self) -> Arc<AtomicBool> {
        self.running
    }

    /// The description of a worker that writes to the pipe at `path` and
    /// watches `running`.
    pub fn new(path: &str, running: &Arc<AtomicBool>) -> (spec: Self)
        ensures
            spec.path_view() == path@,
            spec.flag() == *running,
    {
        WorkerSpec { path: path.to_owned(), running: share_flag(running) }
    }

    /// Whether the worker is still to run. The flag is shared with other
    /// threads, so nothing is known of the answer beforehand.
    pub fn is_running(&self) -> (running: bool) {
        self.running.load(Ordering::SeqCst)
    }

    /// The path to the named pipe.
    pub fn path(&self) -> (path: &str)
        ensures
            path@ == self.path_view(),
    {
        self.path.as_str()
    }
}

/// The pool: the flag that its workers watch, and what each worker is
/// given, by the index under which its thread is spawned.
#[derive(Debug)]
pub struct WorkerPool {
    /// True while the workers are to run. It is lowered once and stays so.
    pub running: Arc<AtomicBool>,
    /// One entry for each thread that is still to be spawned.
    pub workers: Vec<WorkerSpec>,
    /// Whether this pool has asked its workers to stop.
    stopping: bool,
}

impl WorkerPool {
    /// The flag that the pool's workers watch.
    pub closed spec fn flag(&self) -> Arc<AtomicBool> {
        self.running
    }

    /// What the threads that are still to be spawned are given, in spawn
    /// order.
    pub closed spec fn planned(&self) -> Seq<WorkerSpec> {
        self.workers@
    }

    /// Whether this pool has asked its workers to stop.
    pub closed spec fn shutdown_requested(&self) -> bool {
        self.stopping
    }

    /// The pool as it is once it has asked its workers to stop.
    pub closed spec fn after_shutdown(&self) -> WorkerPool {
        WorkerPool { running: self.running, workers: self.workers, stopping: true }
    }

    /// A request to stop changes nothing but the request itself.
    pub proof fn lemma_after_shutdown(&self)
        ensures
            self.after_shutdown().shutdown_requested(),
            self.after_shutdown().flag() == self.flag(),
            self.after_shutdown().planned() == self.planned(),
            self.shutdown_requested() ==> self.after_shutdown() == *self,
    {
    }

    /// A pool with the flag `running` and the workers `workers`, which has
    /// not asked them to stop.
    pub fn new(running: Arc<AtomicBool>, workers: Vec<WorkerSpec>) -> (pool: Self)
        ensures
            pool.flag() == running,
            pool.planned() == workers@,
            !pool.shutdown_requested(),
    {
        WorkerPool { running, workers, stopping: false }
    }

    /// Whether this pool has asked its workers to stop.
    pub fn is_shutdown_requested(&self) -> (requested: bool)
        ensures
            requested == self.shutdown_requested(),
    {
        self.stopping
    }

    /// Hands out what the threads are to be spawned with, in spawn order.
    /// The pool keeps the flag.
    pub fn take_workers(&mut self) -> (workers: Vec<WorkerSpec>)
        ensures
            workers@ == old(self).planned(),
            final(self).planned().len() == 0,
            final(self).flag() == old(self).flag(),
            final(self).shutdown_requested() == old(self).shutdown_requested(),
    {
        let mut workers: Vec<WorkerSpec> = Vec::new();
        std::mem::swap(&mut workers, &mut self.workers);
        workers
    }

    /// Asks every worker to stop: lowers the flag. Each worker sees it after
    /// its next full write or its next backoff. A second request changes
    /// nothing.
    pub fn request_shutdown(&mut self)
        ensures
            *final(self) == old(self).after_shutdown(),
            final(self).shutdown_requested(),
            final(self).flag() == old(self).flag(),
            final(self).planned() == old(self).planned(),
    {
        self.running.store(false, Ordering::SeqCst);
        self.stopping = true;
    }

    /// What the pool does when a thread cannot be spawned: it asks the
    /// workers that did start to stop, so that none is left running without
    /// an owner, and hands back the failure as the pool's error. The caller
    /// still waits for the threads it has.
    pub fn spawn_failed(&mut self, failure: IoFailure) -> (error: ErrorKind)
        ensures
            *final(self) == old(self).after_shutdown(),
            final(self).shutdown_requested(),
            final(self).flag() == old(self).flag(),
            final(self).planned() == old(self).planned(),
            error == ErrorKind::IOError(failure),
    {
        self.request_shutdown();
        ErrorKind::IOError(failure)
    }

    /// The pool's result, once every thread has been joined: `outcomes`
    /// holds what each returned, in spawn order. The pool is over with this.
    pub fn join(self, outcomes: Vec<Result<()>>) -> (joined: Result<()>)
        ensures
            match joined {
                Ok(_) => failures(outcomes@).len() == 0,
                Err(ErrorKind::WorkerErrors(errors)) => failures(outcomes@).len() > 0 && reports(
                    errors@,
                    failures(outcomes@),
                ),
                Err(_) => false,
            },
    {
        join_workers(outcomes)
    }
}

/// To ask a pool to stop twice is to ask it once.
pub proof fn lemma_request_shutdown_idempotent(pool: WorkerPool)
    ensures
        pool.after_shutdown().after_shutdown() == pool.after_shutdown(),
{
}

} // verus!
