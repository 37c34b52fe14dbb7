use disco::error::{ErrorKind, IoFailure, IoFailureKind, Result, WorkerError};
use disco::stream::{join_workers, start_workers};
use disco::workers::{WorkerPool, WorkerSpec};
use std::sync::atomic::{AtomicBool, Ordering};
use std::sync::Arc;

fn denied() -> IoFailure {
    IoFailure { os_code: Some(13), kind: IoFailureKind::Other }
}

fn unknown() -> IoFailure {
    IoFailure { os_code: None, kind: IoFailureKind::Other }
}

fn io_failure_of(error: &WorkerError) -> IoFailure {
    match error.error() {
        ErrorKind::IOError(failure) => *failure,
        _ => panic!("the cause is not an I/O failure"),
    }
}

#[test]
fn worker_spec_keeps_path_and_shares_flag() {
    let running = Arc::new(AtomicBool::new(true));
    let spec = WorkerSpec::new("/tmp/disco.fifo", &running);
    assert_eq!(spec.path(), "/tmp/disco.fifo");
    assert!(spec.is_running());
    running.store(false, Ordering::SeqCst);
    assert!(!spec.is_running());
    running.store(true, Ordering::SeqCst);
    assert!(spec.is_running());
}

#[test]
fn worker_error_keeps_index_and_cause() {
    let error = WorkerError::new(7, ErrorKind::IOError(denied()));
    assert_eq!(error.thread_id(), 7);
    assert_eq!(io_failure_of(&error), denied());
}

#[test]
fn start_plans_one_worker_per_thread() {
    for n in 1..=8usize {
        let pool = start_workers("/tmp/disco.fifo", n);
        assert_eq!(pool.workers.len(), n);
        assert!(!pool.is_shutdown_requested());
        assert!(pool.running.load(Ordering::SeqCst));
        for spec in pool.workers.iter() {
            assert_eq!(spec.path(), "/tmp/disco.fifo");
            assert!(spec.is_running());
        }
    }
}

#[test]
fn start_with_no_workers_plans_none() {
    let pool = start_workers("/tmp/disco.fifo", 0);
    assert!(pool.workers.is_empty());
    assert!(pool.join(Vec::new()).is_ok());
}

#[test]
fn workers_share_the_pools_flag() {
    let pool = start_workers("/tmp/disco.fifo", 3);
    pool.running.store(false, Ordering::SeqCst);
    assert!(pool.workers.iter().all(|spec| !spec.is_running()));
}

#[test]
fn pools_do_not_share_flags() {
    let mut first = start_workers("/tmp/a.fifo", 2);
    let second = start_workers("/tmp/b.fifo", 2);
    first.request_shutdown();
    assert!(first.workers.iter().all(|spec| !spec.is_running()));
    assert!(second.workers.iter().all(|spec| spec.is_running()));
}

#[test]
fn shutdown_request_reaches_every_worker() {
    let mut pool = start_workers("/tmp/disco.fifo", 4);
    let specs = pool.take_workers();
    assert_eq!(specs.len(), 4);
    assert!(pool.workers.is_empty());
    assert!(specs.iter().all(|spec| spec.is_running()));
    pool.request_shutdown();
    assert!(pool.is_shutdown_requested());
    assert!(specs.iter().all(|spec| !spec.is_running()));
}

#[test]
fn shutdown_request_is_idempotent() {
    let mut pool = start_workers("/tmp/disco.fifo", 2);
    pool.request_shutdown();
    let requested = pool.is_shutdown_requested();
    let flag = pool.running.load(Ordering::SeqCst);
    let planned = pool.workers.len();
    pool.request_shutdown();
    assert_eq!(pool.is_shutdown_requested(), requested);
    assert_eq!(pool.running.load(Ordering::SeqCst), flag);
    assert_eq!(pool.workers.len(), planned);
    assert!(requested);
    assert!(!flag);
}

#[test]
fn failed_spawn_stops_the_started_workers() {
    let mut pool = start_workers("/tmp/disco.fifo", 3);
    let specs = pool.take_workers();
    let error = pool.spawn_failed(denied());
    assert!(matches!(error, ErrorKind::IOError(f) if f == denied()));
    assert!(pool.is_shutdown_requested());
    assert!(specs.iter().all(|spec| !spec.is_running()));
}

#[test]
fn new_pool_has_not_asked_to_stop() {
    let running = Arc::new(AtomicBool::new(true));
    let specs = vec![WorkerSpec::new("/tmp/disco.fifo", &running)];
    let pool = WorkerPool::new(running, specs);
    assert!(!pool.is_shutdown_requested());
    assert_eq!(pool.workers.len(), 1);
    assert!(pool.running.load(Ordering::SeqCst));
}

#[test]
fn join_of_successes_succeeds() {
    let outcomes: Vec<Result<()>> = vec![Ok(()), Ok(()), Ok(())];
    assert!(join_workers(outcomes).is_ok());
}

#[test]
fn join_of_nothing_succeeds() {
    assert!(join_workers(Vec::new()).is_ok());
}

#[test]
fn join_lists_failed_threads_in_spawn_order() {
    let outcomes: Vec<Result<()>> =
        vec![Err(ErrorKind::IOError(denied())), Ok(()), Err(ErrorKind::IOError(unknown()))];
    match join_workers(outcomes) {
        Err(ErrorKind::WorkerErrors(errors)) => {
            assert_eq!(errors.len(), 2);
            assert_eq!(errors[0].thread_id(), 0);
            assert_eq!(io_failure_of(&errors[0]), denied());
            assert_eq!(errors[1].thread_id(), 2);
            assert_eq!(io_failure_of(&errors[1]), unknown());
        }
        _ => panic!("two workers failed"),
    }
}

#[test]
fn join_reports_every_failure_not_only_the_first() {
    let mut outcomes: Vec<Result<()>> = Vec::new();
    for i in 0..6i32 {
        if i % 2 == 1 {
            outcomes.push(Err(ErrorKind::IOError(IoFailure {
                os_code: Some(i),
                kind: IoFailureKind::Other,
            })));
        } else {
            outcomes.push(Ok(()));
        }
    }
    match join_workers(outcomes) {
        Err(ErrorKind::WorkerErrors(errors)) => {
            let ids: Vec<usize> = errors.iter().map(|e| e.thread_id()).collect();
            assert_eq!(ids, vec![1, 3, 5]);
            let codes: Vec<Option<i32>> = errors.iter().map(|e| io_failure_of(e).os_code).collect();
            assert_eq!(codes, vec![Some(1), Some(3), Some(5)]);
        }
        _ => panic!("three workers failed"),
    }
}

#[test]
fn join_keeps_an_entropy_failure() {
    let cause = getrandom::Error::UNSUPPORTED;
    let outcomes: Vec<Result<()>> = vec![Ok(()), Err(ErrorKind::EntropyError(cause))];
    match join_workers(outcomes) {
        Err(ErrorKind::WorkerErrors(errors)) => {
            assert_eq!(errors.len(), 1);
            assert_eq!(errors[0].thread_id(), 1);
            assert!(matches!(errors[0].error(), ErrorKind::EntropyError(e) if *e == cause));
        }
        _ => panic!("one worker failed"),
    }
}

#[test]
fn pool_join_is_the_aggregate() {
    let mut pool = start_workers("/tmp/disco.fifo", 3);
    let _ = pool.take_workers();
    pool.request_shutdown();
    let outcomes: Vec<Result<()>> = vec![Ok(()), Err(ErrorKind::IOError(denied())), Ok(())];
    match pool.join(outcomes) {
        Err(ErrorKind::WorkerErrors(errors)) => {
            assert_eq!(errors.len(), 1);
            assert_eq!(errors[0].thread_id(), 1);
            assert_eq!(io_failure_of(&errors[0]), denied());
        }
        _ => panic!("one worker failed"),
    }
}
