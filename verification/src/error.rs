//! The failures a worker can end with, and the pool's aggregate of them.

use vstd::prelude::*;

verus! {

/// `getrandom::Error`, the error of the operating system's entropy source.
/// Nothing inside it is read here: the value is carried to the caller.
#[verifier::external_type_specification]
#[verifier::external_body]
pub struct ExEntropyError(getrandom::Error);

/// The portable class of a failed open or write, as far as a worker
/// tells classes apart.
#[derive(Clone, Copy, Debug, PartialEq, Eq, Structural)]
pub enum IoFailureKind {
    /// The reader closed its end of the pipe.
    BrokenPipe,
    /// The pipe cannot take the data right now.
    WouldBlock,
    /// Any other class.
    Other,
}

/// What a worker reads of a failed operation on its channel.
#[derive(Clone, Copy, Debug, PartialEq, Eq, Structural)]
pub struct IoFailure {
    /// The operating system's error number, where the failure came from it.
    pub os_code: Option<i32>,
    /// The portable class of the failure.
    pub kind: IoFailureKind,
}

/// The failure of one worker thread.
#[derive(Debug)]
pub struct WorkerError {
    thread_id: usize,
    error: ErrorKind,
}

/// The ways in which a worker, or the pool as a whole, can fail.
#[derive(Debug)]
pub enum ErrorKind {
    /// The channel failed in a way that a worker does not recover from.
    IOError(IoFailure),
    /// The operating system's entropy source was not available.
    EntropyError(getrandom::Error),
    /// The failures of the pool's workers, by ascending thread index.
    WorkerErrors(Vec<WorkerError>),
}

/// A result whose error is an `ErrorKind`.
pub type Result<T> = core::result::Result<T, ErrorKind>;

impl WorkerError {
    /// The index, in spawn order, of the thread that failed.
    pub closed spec fn index(&self) -> usize {
        self.thread_id
    }

    /// What the thread failed with.
    pub closed spec fn cause(&self) -> ErrorKind {
        self.error
    }

    /// The failure `error` of the thread with index `thread_id`.
    pub fn new(thread_id: usize, error: ErrorKind) -> (e: Self)
        ensures
            e.index() == thread_id,
            e.cause() == error,
    {
        WorkerError { thread_id, error }
    }

    /// The index, in spawn order, of the thread that failed.
    pub fn thread_id(&self) -> (id: usize)
        ensures
            id == self.index(),
    {
        self.thread_id
    }

    /// What the thread failed with.
    pub fn error(&self) -> (error: &ErrorKind)
        ensures
            *error == self.cause(),
    {
        &self.error
    }
}

} // verus!
