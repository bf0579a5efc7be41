use nexa_vortex_core::cpu_dispatch::{Claim, Dispatcher, JobOutcome, WorkerState, MAX_WORKERS};
use nexa_vortex_core::errors::VortexError;
use std::cell::Cell;
use std::rc::Rc;

type CountingJob = Box<dyn FnOnce() -> Result<(), String>>;

fn counting_job(counter: &Rc<Cell<u64>>) -> CountingJob {
    let counter = Rc::clone(counter);
    Box::new(move || {
        counter.set(counter.get() + 1);
        Ok(())
    })
}

fn failing_job() -> CountingJob {
    Box::new(|| Err(String::from("boom")))
}

fn outcome_of(result: Result<(), String>) -> JobOutcome {
    match result {
        Ok(()) => JobOutcome::Completed,
        Err(why) => JobOutcome::Failed(why),
    }
}

/// Lets the workers take turns until none of them has anything left to do.
/// A worker that holds a job runs it and reports its end on its next turn.
fn run_until_quiet(pool: &mut Dispatcher<CountingJob>) -> usize {
    let workers = pool.worker_count();
    let mut held: Vec<Option<CountingJob>> = Vec::new();
    for _ in 0..workers {
        held.push(None);
    }
    let mut ran = 0;
    loop {
        let mut progressed = false;
        for w in 0..workers {
            if let Some(job) = held[w].take() {
                assert!(pool.finish(w, outcome_of(job())));
                ran += 1;
                progressed = true;
            } else if let Claim::Job(job) = pool.claim(w) {
                held[w] = Some(job);
                progressed = true;
            }
        }
        if !progressed {
            return ran;
        }
    }
}

#[test]
fn pool_rejects_zero_workers() {
    match Dispatcher::<u32>::new(0) {
        Err(VortexError::PoolCreation(why)) => {
            assert_eq!(why, "worker count must be at least 1")
        }
        _ => panic!("a worker count of zero must be refused with PoolCreation"),
    }
}

#[test]
fn pool_rejects_too_many_workers() {
    assert_eq!(MAX_WORKERS, 4096);
    match Dispatcher::<u32>::new(MAX_WORKERS + 1) {
        Err(VortexError::PoolCreation(why)) => {
            assert_eq!(why, "worker count exceeds the supported maximum")
        }
        _ => panic!("a worker count above the maximum must be refused with PoolCreation"),
    }
    assert!(Dispatcher::<u32>::new(MAX_WORKERS).is_ok());
}

#[test]
fn pool_construction_error_is_recognised() {
    let e = Dispatcher::<u32>::new(0).err().unwrap();
    assert!(e.is_construction_error());
    assert_eq!(
        e.message(),
        "Failed to create a new worker pool: worker count must be at least 1"
    );
}

#[test]
fn new_pool_is_open_idle_and_empty() {
    let pool = Dispatcher::<u32>::new(3).unwrap();
    assert_eq!(pool.worker_count(), 3);
    assert_eq!(pool.pending_jobs(), 0);
    assert!(!pool.is_closed());
    assert!(!pool.all_stopped());
    for w in 0..3 {
        assert_eq!(pool.worker_state(w), Some(WorkerState::Idle));
    }
    assert_eq!(pool.worker_state(3), None);
}

#[test]
fn jobs_are_claimed_oldest_first_and_once() {
    let mut pool = Dispatcher::new(2).unwrap();
    assert_eq!(pool.submit("a"), Ok(()));
    assert_eq!(pool.submit("b"), Ok(()));
    assert_eq!(pool.submit("c"), Ok(()));
    assert_eq!(pool.pending_jobs(), 3);
    assert!(matches!(pool.claim(1), Claim::Job("a")));
    assert_eq!(pool.worker_state(1), Some(WorkerState::Executing));
    assert_eq!(pool.worker_state(0), Some(WorkerState::Idle));
    assert!(matches!(pool.claim(0), Claim::Job("b")));
    assert_eq!(pool.pending_jobs(), 1);
    assert!(pool.finish(0, JobOutcome::Completed));
    assert!(matches!(pool.claim(0), Claim::Job("c")));
    assert_eq!(pool.pending_jobs(), 0);
}

#[test]
fn claim_is_refused_to_anyone_but_an_idle_worker() {
    let mut pool = Dispatcher::new(1).unwrap();
    pool.submit(1u8).unwrap();
    pool.submit(2u8).unwrap();
    assert!(matches!(pool.claim(1), Claim::Refused));
    assert!(matches!(pool.claim(usize::MAX), Claim::Refused));
    assert!(matches!(pool.claim(0), Claim::Job(1)));
    // The worker is busy: it cannot take a second job.
    assert!(matches!(pool.claim(0), Claim::Refused));
    assert_eq!(pool.pending_jobs(), 1);
    assert_eq!(pool.worker_state(0), Some(WorkerState::Executing));
}

#[test]
fn idle_worker_waits_while_pool_is_open() {
    let mut pool = Dispatcher::<u8>::new(2).unwrap();
    assert!(matches!(pool.claim(0), Claim::Wait));
    assert_eq!(pool.worker_state(0), Some(WorkerState::Idle));
    pool.submit(9).unwrap();
    assert!(matches!(pool.claim(0), Claim::Job(9)));
}

#[test]
fn finish_is_refused_unless_the_worker_was_executing() {
    let mut pool = Dispatcher::new(2).unwrap();
    assert!(!pool.finish(0, JobOutcome::Completed));
    assert!(!pool.finish(2, JobOutcome::Failed(String::from("nobody"))));
    assert!(pool.take_failures().is_empty());
    pool.submit(()).unwrap();
    assert!(matches!(pool.claim(0), Claim::Job(())));
    assert!(!pool.finish(1, JobOutcome::Completed));
    assert!(pool.finish(0, JobOutcome::Completed));
    assert!(!pool.finish(0, JobOutcome::Completed));
    assert_eq!(pool.worker_state(0), Some(WorkerState::Idle));
}

#[test]
fn every_job_runs_exactly_once_whatever_the_worker_count() {
    for workers in [1usize, 2, 16] {
        let counter = Rc::new(Cell::new(0u64));
        let mut pool = Dispatcher::new(workers).unwrap();
        let jobs = 1000;
        for _ in 0..jobs {
            pool.submit(counting_job(&counter)).unwrap();
        }
        let ran = run_until_quiet(&mut pool);
        assert_eq!(ran, jobs);
        assert_eq!(counter.get(), jobs as u64);
        assert_eq!(pool.pending_jobs(), 0);
        for w in 0..workers {
            assert_eq!(pool.worker_state(w), Some(WorkerState::Idle));
        }
    }
}

#[test]
fn failing_job_does_not_stop_its_worker() {
    let counter = Rc::new(Cell::new(0u64));
    let mut pool = Dispatcher::new(1).unwrap();
    pool.submit(failing_job()).unwrap();
    let n = 25;
    for _ in 0..n {
        pool.submit(counting_job(&counter)).unwrap();
    }
    let ran = run_until_quiet(&mut pool);
    assert_eq!(ran, n + 1);
    assert_eq!(counter.get(), n as u64);
    assert_eq!(pool.worker_state(0), Some(WorkerState::Idle));
    assert_eq!(
        pool.take_failures(),
        vec![VortexError::JobExecution(String::from("boom"))]
    );
}

#[test]
fn failures_are_handed_over_once_and_in_order() {
    let mut pool = Dispatcher::new(2).unwrap();
    pool.submit(1).unwrap();
    pool.submit(2).unwrap();
    assert!(matches!(pool.claim(0), Claim::Job(1)));
    assert!(matches!(pool.claim(1), Claim::Job(2)));
    assert!(pool.finish(1, JobOutcome::Failed(String::from("second"))));
    assert!(pool.finish(0, JobOutcome::Failed(String::from("first"))));
    let failures = pool.take_failures();
    assert_eq!(
        failures,
        vec![
            VortexError::JobExecution(String::from("second")),
            VortexError::JobExecution(String::from("first")),
        ]
    );
    assert_eq!(failures[0].message(), "A dispatched job failed: second");
    assert!(pool.take_failures().is_empty());
}

#[test]
fn closed_pool_rejects_new_jobs() {
    let mut pool = Dispatcher::new(1).unwrap();
    pool.submit(1u32).unwrap();
    pool.close();
    assert!(pool.is_closed());
    assert_eq!(pool.submit(2), Err(VortexError::PoolShutdown));
    assert_eq!(pool.pending_jobs(), 1);
    assert_eq!(
        VortexError::PoolShutdown.message(),
        "The worker pool is shutting down"
    );
}

#[test]
fn shutdown_drains_every_queued_job_before_workers_stop() {
    let counter = Rc::new(Cell::new(0u64));
    let mut pool = Dispatcher::new(4).unwrap();
    for _ in 0..100 {
        pool.submit(counting_job(&counter)).unwrap();
    }
    pool.close();
    assert!(pool.submit(counting_job(&counter)).is_err());
    assert_eq!(pool.pending_jobs(), 100);

    let ran = run_until_quiet(&mut pool);
    assert_eq!(ran, 100);
    assert_eq!(counter.get(), 100);
    // The last round of claims found the backlog empty and the pool closed.
    assert!(pool.all_stopped());
    for w in 0..4 {
        assert_eq!(pool.worker_state(w), Some(WorkerState::Stopped));
        assert!(matches!(pool.claim(w), Claim::Refused));
    }
}

#[test]
fn worker_stops_only_when_closed_and_empty() {
    let mut pool = Dispatcher::new(2).unwrap();
    pool.submit('x').unwrap();
    pool.close();
    // Closed, but a job waits: the worker gets the job, not the order to stop.
    assert!(matches!(pool.claim(0), Claim::Job('x')));
    assert!(matches!(pool.claim(1), Claim::Stop));
    assert_eq!(pool.worker_state(1), Some(WorkerState::Stopped));
    assert!(!pool.all_stopped());
    assert!(pool.finish(0, JobOutcome::Completed));
    assert!(matches!(pool.claim(0), Claim::Stop));
    assert!(pool.all_stopped());
}
