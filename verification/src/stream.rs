//! The worker's state machine and the pool's start and join.
//!
//! A worker never touches its pipe itself. It is told what happened (an
//! `Event`) and answers with what to do next (an `Action`); whoever drives it
//! opens, sleeps and writes. The generator lives inside the worker, so the
//! blocks that are written come from nowhere else.

use crate::common::{zeros, Output, OUTPUT_LEN};
use crate::error::{ErrorKind, IoFailure, IoFailureKind, Result, WorkerError};
use crate::rng::{output_of, ratchet, CryptoRng};
use crate::workers::{WorkerPool, WorkerSpec};
use std::sync::atomic::AtomicBool;
use std::sync::Arc;
use vstd::prelude::*;

verus! {

/// Where a worker stands.
#[derive(Clone, Copy, Debug, PartialEq, Eq, Structural)]
pub enum WorkerState {
    /// No reader is attached: the worker tries to open the pipe.
    AwaitingReader,
    /// The pipe is open: the worker writes block after block.
    Streaming,
    /// The worker is over. Its last key has been erased.
    Terminating,
}

/// What the driver reports to a worker.
#[derive(Clone, Copy, Debug, PartialEq, Eq, Structural)]
pub enum Event {
    /// The pipe was opened for writing.
    Opened,
    /// The pipe could not be opened.
    OpenFailed(IoFailure),
    /// The backoff sleep is over.
    BackoffElapsed,
    /// The block was written in full.
    Written,
    /// The block was not written.
    WriteFailed(IoFailure),
}

/// What a worker asks its driver to do next.
#[derive(Debug)]
pub enum Action {
    /// Open the pipe: write-only, nonblocking.
    Open,
    /// Sleep for the default time, then report `BackoffElapsed`.
    Backoff,
    /// Write this block in full to the open pipe.
    Write(Output),
    /// End the thread with this outcome.
    Exit(Result<()>),
}

/// The outcome of a worker that ends with `failure` on record.
pub open spec fn outcome_of(failure: Option<IoFailure>) -> Result<()> {
    match failure {
        None => Ok(()),
        Some(f) => Err(ErrorKind::IOError(f)),
    }
}

/// Whether a failed open means only that no reader is attached: the
/// operating system gave the error number `no_reader`.
pub open spec fn is_no_reader(failure: IoFailure, no_reader: i32) -> bool {
    failure.os_code == Some(no_reader)
}

/// The state that follows `state` on `event`, where the shutdown flag reads
/// `running`. An event that does not belong to the state leaves it as it is.
pub open spec fn next_state(
    state: WorkerState,
    event: Event,
    running: bool,
    no_reader: i32,
) -> WorkerState {
    match state {
        WorkerState::AwaitingReader => match event {
            Event::Opened => WorkerState::Streaming,
            Event::OpenFailed(f) => if is_no_reader(f, no_reader) {
                WorkerState::AwaitingReader
            } else {
                WorkerState::Terminating
            },
            Event::BackoffElapsed => if running {
                WorkerState::AwaitingReader
            } else {
                WorkerState::Terminating
            },
            _ => WorkerState::AwaitingReader,
        },
        WorkerState::Streaming => match event {
            Event::Written => if running {
                WorkerState::Streaming
            } else {
                WorkerState::Terminating
            },
            Event::WriteFailed(f) => match f.kind {
                IoFailureKind::BrokenPipe => WorkerState::AwaitingReader,
                IoFailureKind::WouldBlock => WorkerState::Streaming,
                IoFailureKind::Other => WorkerState::Terminating,
            },
            _ => WorkerState::Streaming,
        },
        WorkerState::Terminating => WorkerState::Terminating,
    }
}

/// Whether the step from `state` on `event` regenerates: to have a fresh
/// block for a pipe just opened or a block just written, or to erase the
/// last key when the worker ends.
pub open spec fn regenerates(
    state: WorkerState,
    event: Event,
    running: bool,
    no_reader: i32,
) -> bool {
    let ends = next_state(state, event, running, no_reader) is Terminating;
    match state {
        WorkerState::AwaitingReader => event is Opened || ends,
        WorkerState::Streaming => event is Written || ends,
        WorkerState::Terminating => false,
    }
}

/// The failure on record after the step from `state` on `event`: the one
/// that ends the worker, if one does; else what was on record before.
pub open spec fn next_failure(
    state: WorkerState,
    event: Event,
    no_reader: i32,
    failure: Option<IoFailure>,
) -> Option<IoFailure> {
    match (state, event) {
        (WorkerState::AwaitingReader, Event::OpenFailed(f)) => if is_no_reader(f, no_reader) {
            failure
        } else {
            Some(f)
        },
        (WorkerState::Streaming, Event::WriteFailed(f)) => if f.kind is Other {
            Some(f)
        } else {
            failure
        },
        _ => failure,
    }
}

/// Whether `action` is what a worker asks for when a step from `before` on
/// `event` has brought it to `after`, with `generator` as its generator's
/// state and `failure` on record.
pub open spec fn is_answer(
    action: Action,
    before: WorkerState,
    event: Event,
    after: WorkerState,
    generator: Seq<u8>,
    failure: Option<IoFailure>,
) -> bool {
    match after {
        WorkerState::AwaitingReader => if before is AwaitingReader && event is OpenFailed {
            action is Backoff
        } else {
            action is Open
        },
        WorkerState::Streaming => action matches Action::Write(block) && block@ == output_of(
            generator,
        ),
        WorkerState::Terminating => action matches Action::Exit(outcome) && outcome == outcome_of(
            failure,
        ),
    }
}

/// `libc::ENXIO`: the error number with which the operating system refuses
/// to open a pipe for writing while no reader has it open. The number
/// differs between systems, so nothing is said of it.
#[verifier::external_body]
fn no_reader_errno() -> (code: i32)
{
    libc::ENXIO
}

/// One worker: its assignment, its generator, and where it stands.
pub struct Worker {
    assignment: WorkerSpec,
    rng: CryptoRng,
    state: WorkerState,
    failure: Option<IoFailure>,
    no_reader: i32,
}

impl Worker {
    /// What the worker was given.
    pub closed spec fn assignment(&self) -> WorkerSpec {
        self.assignment
    }

    /// The state of the worker's generator.
    pub closed spec fn generator(&self) -> Seq<u8> {
        self.rng@
    }

    /// Where the worker stands.
    pub closed spec fn state(&self) -> WorkerState {
        self.state
    }

    /// The failure that ended the worker, if one did.
    pub closed spec fn failure(&self) -> Option<IoFailure> {
        self.failure
    }

    /// The error number that the worker takes for "no reader attached".
    pub closed spec fn no_reader_code(&self) -> i32 {
        self.no_reader
    }

    /// Whether `self` and `action` are what a step on `event` makes of
    /// `before`, where the shutdown flag reads `running`.
    pub open spec fn follows(
        &self,
        before: Worker,
        event: Event,
        running: bool,
        action: Action,
    ) -> bool {
        let code = before.no_reader_code();
        &&& self.assignment() == before.assignment()
        &&& self.no_reader_code() == code
        &&& self.state() == next_state(before.state(), event, running, code)
        &&& self.failure() == next_failure(before.state(), event, code, before.failure())
        &&& self.generator() == if regenerates(before.state(), event, running, code) {
            ratchet(before.generator())
        } else {
            before.generator()
        }
        &&& is_answer(action, before.state(), event, self.state(), self.generator(), self.failure())
    }

    /// A worker has a failure on record only once it is over.
    pub open spec fn consistent(&self) -> bool {
        self.failure() is Some ==> self.state() is Terminating
    }

    /// A worker with the generator `rng`, about to look for a reader, which
    /// takes the error number `no_reader` of a failed open to mean that no
    /// reader is attached.
    pub fn with_parts(assignment: WorkerSpec, rng: CryptoRng, no_reader: i32) -> (worker: Self)
        ensures
            worker.assignment() == assignment,
            worker.generator() == rng@,
            worker.no_reader_code() == no_reader,
            worker.state() == WorkerState::AwaitingReader,
            worker.failure() == None::<IoFailure>,
            worker.consistent(),
    {
        Worker { assignment, rng, state: WorkerState::AwaitingReader, failure: None, no_reader }
    }

    /// A worker with the generator `rng`, about to look for a reader, with
    /// this system's error number for "no reader attached".
    pub fn with_generator(assignment: WorkerSpec, rng: CryptoRng) -> (worker: Self)
        ensures
            worker.assignment() == assignment,
            worker.generator() == rng@,
            worker.state() == WorkerState::AwaitingReader,
            worker.failure() == None::<IoFailure>,
    {
        Self::with_parts(assignment, rng, no_reader_errno())
    }

    /// A worker with a generator keyed from the operating system's entropy
    /// source, about to look for a reader. Without entropy there is no
    /// worker.
    pub fn new(assignment: WorkerSpec) -> (worker: Result<Self>)
        ensures
            worker matches Ok(w) ==> {
                &&& w.assignment() == assignment
                &&& output_of(w.generator()) == zeros(OUTPUT_LEN as nat)
                &&& w.state() == WorkerState::AwaitingReader
                &&& w.failure() == None::<IoFailure>
            },
            worker matches Err(e) ==> e is EntropyError,
    {
        match CryptoRng::from_entropy() {
            Ok(rng) => Ok(Self::with_generator(assignment, rng)),
            Err(e) => Err(e),
        }
    }

    /// Where the worker stands.
    pub fn current_state(&self) -> (state: WorkerState)
        ensures
            state == self.state(),
    {
        self.state
    }

    /// The path to the pipe that the worker writes to.
    pub fn path(&self) -> (path: &str)
        ensures
            path@ == self.assignment().path_view(),
    {
        self.assignment.path()
    }

    /// Gives up the worker for its generator, as the last step left it.
    pub fn into_generator(self) -> (rng: CryptoRng)
        ensures
            rng@ == self.generator(),
    {
        self.rng
    }

    /// What the worker is waiting for its driver to do: to open the pipe,
    /// to write the current block, or to end the thread.
    pub fn pending(&self) -> (action: Action)
        ensures
            match self.state() {
                WorkerState::AwaitingReader => action is Open,
                WorkerState::Streaming => action matches Action::Write(block) && block@
                    == output_of(self.generator()),
                WorkerState::Terminating => action matches Action::Exit(outcome) && outcome
                    == outcome_of(self.failure()),
            },
    {
        match self.state {
            WorkerState::AwaitingReader => Action::Open,
            WorkerState::Streaming => Action::Write(self.rng.output()),
            WorkerState::Terminating => Action::Exit(
                match self.failure {
                    None => Ok(()),
                    Some(f) => Err(ErrorKind::IOError(f)),
                },
            ),
        }
    }

    /// Ends the worker: erases the last key by one more regeneration, whose
    /// output nobody sees, and asks to end the thread.
    fn terminate(&mut self, failure: Option<IoFailure>) -> (action: Action)
        ensures
            final(self).assignment() == old(self).assignment(),
            final(self).no_reader_code() == old(self).no_reader_code(),
            final(self).state() == WorkerState::Terminating,
            final(self).failure() == failure,
            final(self).generator() == ratchet(old(self).generator()),
            action matches Action::Exit(outcome) && outcome == outcome_of(failure),
    {
        let _ = self.rng.regenerate();
        self.failure = failure;
        self.state = WorkerState::Terminating;
        self.pending()
    }

    /// Makes the next block and asks to write it.
    fn stream(&mut self) -> (action: Action)
        ensures
            final(self).assignment() == old(self).assignment(),
            final(self).no_reader_code() == old(self).no_reader_code(),
            final(self).state() == WorkerState::Streaming,
            final(self).failure() == old(self).failure(),
            final(self).generator() == ratchet(old(self).generator()),
            action matches Action::Write(block) && block@ == output_of(final(self).generator()),
    {
        let block = self.rng.regenerate();
        self.state = WorkerState::Streaming;
        Action::Write(block)
    }

    /// One step of the worker: takes what happened, given what the shutdown
    /// flag reads, and answers with what to do next.
    ///
    /// While it awaits a reader, an open that succeeds starts the stream
    /// with a fresh block. An open that fails for want of a reader asks for
    /// a backoff, after which the worker tries again if it is still to run
    /// and ends if not. Any other failure to open ends it.
    ///
    /// While it streams, a block written in full is followed by a fresh one
    /// if the worker is still to run, and ends it if not. A write that would
    /// block is asked for again with the same block. A broken pipe sends the
    /// worker back to await a reader, with the generator it has. Any other
    /// failure to write ends it.
    ///
    /// A worker that ends regenerates once more, so that its last key is
    /// gone, and asks to exit with the failure that ended it, if any. From
    /// then on it only repeats that. An event that does not belong to the
    /// state changes nothing: the worker repeats what it is waiting for.
    pub fn advance(&mut self, event: Event, running: bool) -> (action: Action)
        ensures
            final(self).follows(*old(self), event, running, action),
            old(self).consistent() ==> final(self).consistent(),
    {
        match self.state {
            WorkerState::AwaitingReader => match event {
                Event::Opened => self.stream(),
                Event::OpenFailed(f) => {
                    if f.os_code == Some(self.no_reader) {
                        Action::Backoff
                    } else {
                        self.terminate(Some(f))
                    }
                },
                Event::BackoffElapsed => {
                    if running {
                        Action::Open
                    } else {
                        let failure = self.failure;
                        self.terminate(failure)
                    }
                },
                _ => self.pending(),
            },
            WorkerState::Streaming => match event {
                Event::Written => {
                    if running {
                        self.stream()
                    } else {
                        let failure = self.failure;
                        self.terminate(failure)
                    }
                },
                Event::WriteFailed(f) => match f.kind {
                    IoFailureKind::BrokenPipe => {
                        self.state = WorkerState::AwaitingReader;
                        Action::Open
                    },
                    IoFailureKind::WouldBlock => self.pending(),
                    IoFailureKind::Other => self.terminate(Some(f)),
                },
                _ => self.pending(),
            },
            WorkerState::Terminating => self.pending(),
        }
    }

    /// One step of the worker, with the shutdown flag read from the
    /// worker's assignment. The flag is shared, so either reading may come.
    pub fn step(&mut self, event: Event) -> (action: Action)
        ensures
            final(self).follows(*old(self), event, true, action) || final(self).follows(
                *old(self),
                event,
                false,
                action,
            ),
            old(self).consistent() ==> final(self).consistent(),
    {
        let running = self.assignment.is_running();
        self.advance(event, running)
    }
}

/// A reader that opens the pipe is served: the worker that awaited it
/// regenerates and asks to write the fresh block.
pub proof fn lemma_reader_is_served(before: Worker, after: Worker, running: bool, action: Action)
    requires
        before.state() is AwaitingReader,
        after.follows(before, Event::Opened, running, action),
    ensures
        after.state() is Streaming,
        after.generator() == ratchet(before.generator()),
        action matches Action::Write(block) && block@ == output_of(ratchet(before.generator())),
{
}

/// A write that would block is asked for again with the block that was not
/// written: the generator is not touched, so no block is skipped and none
/// comes twice.
pub proof fn lemma_retry_keeps_block(
    before: Worker,
    after: Worker,
    failure: IoFailure,
    running: bool,
    action: Action,
)
    requires
        before.state() is Streaming,
        failure.kind is WouldBlock,
        after.follows(before, Event::WriteFailed(failure), running, action),
    ensures
        after.state() is Streaming,
        after.generator() == before.generator(),
        action matches Action::Write(block) && block@ == output_of(before.generator()),
{
}

/// A reader that goes away costs the worker nothing but the pipe: it awaits
/// the next reader with the generator it has.
pub proof fn lemma_disconnect_keeps_generator(
    before: Worker,
    after: Worker,
    failure: IoFailure,
    running: bool,
    action: Action,
)
    requires
        before.state() is Streaming,
        failure.kind is BrokenPipe,
        after.follows(before, Event::WriteFailed(failure), running, action),
    ensures
        after.state() is AwaitingReader,
        after.generator() == before.generator(),
        action is Open,
{
}

/// A worker notices a shutdown after a full write and after a backoff: with
/// the flag down, either ends it with success, its last key erased.
pub proof fn lemma_shutdown_is_noticed(before: Worker, after: Worker, event: Event, action: Action)
    requires
        before.consistent(),
        (before.state() is Streaming && event is Written) || (before.state() is AwaitingReader
            && event is BackoffElapsed),
        after.follows(before, event, false, action),
    ensures
        after.state() is Terminating,
        after.generator() == ratchet(before.generator()),
        action matches Action::Exit(outcome) && outcome is Ok,
{
}

/// A worker that is over stays as it is, whatever it is told, and repeats
/// its outcome: the failure that ended it, or success.
pub proof fn lemma_terminating_is_final(
    before: Worker,
    after: Worker,
    event: Event,
    running: bool,
    action: Action,
)
    requires
        before.state() is Terminating,
        after.follows(before, event, running, action),
    ensures
        after.state() is Terminating,
        after.generator() == before.generator(),
        after.failure() == before.failure(),
        action matches Action::Exit(outcome) && outcome == outcome_of(before.failure()),
{
}

/// Every way into the end erases the key: a worker that ends in a step has
/// regenerated in it, and has on record the failure that ended it.
pub proof fn lemma_end_erases_key(
    before: Worker,
    after: Worker,
    event: Event,
    running: bool,
    action: Action,
)
    requires
        !(before.state() is Terminating),
        after.state() is Terminating,
        after.follows(before, event, running, action),
    ensures
        after.generator() == ratchet(before.generator()),
        action matches Action::Exit(outcome) && outcome == outcome_of(after.failure()),
        match event {
            Event::OpenFailed(f) => after.failure() == Some(f),
            Event::WriteFailed(f) => after.failure() == Some(f),
            _ => after.failure() == before.failure(),
        },
{
}

/// A step keeps a worker consistent.
pub proof fn lemma_step_keeps_consistent(
    before: Worker,
    after: Worker,
    event: Event,
    running: bool,
    action: Action,
)
    requires
        before.consistent(),
        after.follows(before, event, running, action),
    ensures
        after.consistent(),
{
}

/// The failures among `outcomes`, each with its position, in the order of
/// the positions.
pub open spec fn failures(outcomes: Seq<Result<()>>) -> Seq<(int, ErrorKind)>
    decreases outcomes.len(),
{
    if outcomes.len() == 0 {
        Seq::empty()
    } else {
        let earlier = failures(outcomes.drop_last());
        match outcomes.last() {
            Ok(_) => earlier,
            Err(cause) => earlier.push((outcomes.len() - 1, cause)),
        }
    }
}

/// Whether `errors` holds `failed`, entry by entry: the same thread index
/// and the same cause.
pub open spec fn reports(errors: Seq<WorkerError>, failed: Seq<(int, ErrorKind)>) -> bool {
    &&& errors.len() == failed.len()
    &&& forall|k: int|
        0 <= k < errors.len() ==> (#[trigger] errors[k]).index() == failed[k].0 && errors[k].cause()
            == failed[k].1
}

/// The pool's result, from the outcomes of its workers in spawn order:
/// success if every worker succeeded, else every failure, each with the
/// index of its thread, by ascending index.
pub fn join_workers(outcomes: Vec<Result<()>>) -> (joined: Result<()>)
    ensures
        match joined {
            Ok(_) => failures(outcomes@).len() == 0,
            Err(ErrorKind::WorkerErrors(errors)) => failures(outcomes@).len() > 0 && reports(
                errors@,
                failures(outcomes@),
            ),
            Err(_) => false,
        },
{
    let ghost all = outcomes@;
    let count = outcomes.len();
    let mut errors: Vec<WorkerError> = Vec::new();
    let mut thread_id: usize = 0;
    for outcome in it: outcomes
        invariant
            it.seq() == all,
            all.len() == count,
            thread_id == it.index(),
            reports(errors@, failures(all.take(thread_id as int))),
    {
        proof {
            assert(all.take(thread_id + 1).drop_last() =~= all.take(thread_id as int));
            assert(all.take(thread_id + 1).last() == outcome);
        }
        match outcome {
            Ok(_) => {},
            Err(cause) => {
                errors.push(WorkerError::new(thread_id, cause));
            },
        }
        thread_id += 1;
    }
    proof {
        assert(all.take(thread_id as int) =~= all);
    }
    if errors.is_empty() {
        Ok(())
    } else {
        Err(ErrorKind::WorkerErrors(errors))
    }
}

/// Every entry of the aggregate stands for a worker that failed: its index
/// is a position among the outcomes, and its cause is the error found there.
/// The entries come by strictly ascending index.
pub proof fn lemma_failures_sound(outcomes: Seq<Result<()>>)
    ensures
        forall|k: int|
            0 <= k < failures(outcomes).len() ==> {
                let (index, cause) = #[trigger] failures(outcomes)[k];
                0 <= index < outcomes.len() && outcomes[index] == Err::<(), ErrorKind>(cause)
            },
        forall|j: int, k: int|
            0 <= j < k < failures(outcomes).len() ==> (#[trigger] failures(outcomes)[j]).0 < (
            #[trigger] failures(outcomes)[k]).0,
    decreases outcomes.len(),
{
    if outcomes.len() > 0 {
        let earlier = outcomes.drop_last();
        lemma_failures_sound(earlier);
        assert forall|k: int| 0 <= k < failures(earlier).len() implies {
            let (index, cause) = #[trigger] failures(earlier)[k];
            0 <= index < outcomes.len() - 1 && outcomes[index] == Err::<(), ErrorKind>(cause)
        } by {
            let (index, cause) = failures(earlier)[k];
            assert(earlier[index] == outcomes[index]);
        }
    }
}

/// Every worker that failed has its entry in the aggregate.
pub proof fn lemma_failures_complete(outcomes: Seq<Result<()>>, index: int)
    requires
        0 <= index < outcomes.len(),
        outcomes[index] is Err,
    ensures
        exists|k: int|
            0 <= k < failures(outcomes).len() && #[trigger] failures(outcomes)[k] == (
                index,
                outcomes[index]->Err_0,
            ),
    decreases outcomes.len(),
{
    let earlier = outcomes.drop_last();
    if index == outcomes.len() - 1 {
        let last = failures(earlier).len() as int;
        assert(failures(outcomes)[last] == (index, outcomes[index]->Err_0));
    } else {
        lemma_failures_complete(earlier, index);
        let k = choose|k: int|
            0 <= k < failures(earlier).len() && #[trigger] failures(earlier)[k] == (
                index,
                earlier[index]->Err_0,
            );
        assert(failures(outcomes)[k] == (index, outcomes[index]->Err_0));
    }
}

/// The pool succeeds exactly when every worker did.
pub proof fn lemma_no_failures_iff_all_ok(outcomes: Seq<Result<()>>)
    ensures
        failures(outcomes).len() == 0 <==> forall|i: int|
            0 <= i < outcomes.len() ==> (#[trigger] outcomes[i]) is Ok,
{
    if failures(outcomes).len() == 0 {
        assert forall|i: int| 0 <= i < outcomes.len() implies (#[trigger] outcomes[i]) is Ok by {
            if outcomes[i] is Err {
                lemma_failures_complete(outcomes, i);
            }
        }
    } else {
        lemma_failures_sound(outcomes);
        let (index, cause) = failures(outcomes)[0];
        assert(outcomes[index] is Err);
    }
}

/// Plans a pool of `n_workers` workers for the pipe at `path`: raises a new
/// flag and gives each worker the path and a handle on that flag. The
/// threads are not spawned here: `workers` holds what each is spawned with,
/// at its spawn index.
pub fn start_workers(path: &str, n_workers: usize) -> (pool: WorkerPool)
    ensures
        !pool.shutdown_requested(),
        pool.planned().len() == n_workers,
        forall|i: int|
            0 <= i < n_workers ==> (#[trigger] pool.planned()[i]).path_view() == path@
                && pool.planned()[i].flag() == pool.flag(),
{
    let running = Arc::new(AtomicBool::new(true));
    let mut workers: Vec<WorkerSpec> = Vec::new();
    let mut i: usize = 0;
    while i < n_workers
        invariant
            i <= n_workers,
            workers@.len() == i,
            forall|j: int|
                0 <= j < i ==> (#[trigger] workers@[j]).path_view() == path@ && workers@[j].flag()
                    == running,
        decreases n_workers - i,
    {
        workers.push(WorkerSpec::new(path, &running));
        i += 1;
    }
    WorkerPool::new(running, workers)
}

} // verus!
