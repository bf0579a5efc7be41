//! The decisions of a fixed-size worker pool.
//!
//! A pool is a number of long-lived worker threads that take jobs from one
//! shared backlog. This module holds everything about such a pool that is a
//! decision: whether a job is accepted, which job a worker gets, when a worker
//! waits and when it stops, what a failed job does to its worker. The threads
//! themselves, the lock that guards the `Dispatcher` and the running of a job
//! belong to the caller, who performs what the `Dispatcher` decides:
//!
//! * a worker that is idle calls `claim` while holding the lock, and then,
//!   with the lock released, runs the job, waits, or exits;
//! * when the job has ended, one way or the other, it calls `finish`;
//! * `submit` adds a job and never blocks; `close` begins the shutdown.
//!
//! The backlog is unbounded: `submit` applies no back-pressure, and a caller
//! that outruns its workers for long enough will exhaust memory.
//!
//! Shutdown drains. After `close` no further job is accepted, every job that
//! was accepted before is still handed out, and a worker stops only once the
//! backlog is empty.

use crate::errors::VortexError;
use std::collections::VecDeque;
use vstd::prelude::*;
use vstd::string::*;

verus! {

/// The largest number of workers that a pool can be built with.
pub const MAX_WORKERS: usize = 4096;

/// Where a worker is in its life.
#[derive(Debug, Clone, Copy, PartialEq, Eq, Structural)]
pub enum WorkerState {
    /// Between jobs: the worker may claim one.
    Idle,
    /// Running a job that it claimed.
    Executing,
    /// Past the end of its loop; it claims nothing any more.
    Stopped,
}

/// What a worker is told when it asks for work.
#[derive(Debug)]
pub enum Claim<J> {
    /// Run this job, then report its end with `finish`.
    Job(J),
    /// Nothing to do for now, and the pool is open: wait and ask again.
    Wait,
    /// The pool is closed and the backlog is empty: leave the loop.
    Stop,
    /// The caller is not an idle worker of this pool; nothing has changed.
    Refused,
}

/// How a job ended.
#[derive(Debug)]
pub enum JobOutcome {
    /// The job ran to its end.
    Completed,
    /// The job failed, with a description of the failure.
    Failed(String),
}

/// The state of a pool, as the contracts of `Dispatcher` speak of it.
pub ghost struct PoolView<J> {
    /// The jobs that wait for a worker, oldest first.
    pub pending: Seq<J>,
    /// The state of each worker, by its number.
    pub workers: Seq<WorkerState>,
    /// Whether the shutdown has begun.
    pub closed: bool,
    /// How many jobs `submit` has accepted so far.
    pub accepted: nat,
    /// How many jobs have ended so far, failed ones included.
    pub finished: nat,
    /// The failures that were reported and not yet collected, oldest first.
    pub failures: Seq<VortexError>,
}

/// The number of workers that are running a job.
pub open spec fn executing(workers: Seq<WorkerState>) -> nat
    decreases workers.len(),
{
    if workers.len() == 0 {
        0
    } else {
        executing(workers.drop_last()) + if workers.last() is Executing {
            1nat
        } else {
            0nat
        }
    }
}

/// Why `Dispatcher::new` refuses a worker count, if it does.
pub open spec fn worker_count_refusal(worker_count: usize) -> Option<Seq<char>> {
    if worker_count == 0 {
        Some("worker count must be at least 1"@)
    } else if worker_count > MAX_WORKERS {
        Some("worker count exceeds the supported maximum"@)
    } else {
        None
    }
}

impl<J> PoolView<J> {
    /// A new pool of `worker_count` idle workers.
    pub open spec fn initial(worker_count: nat) -> PoolView<J> {
        PoolView {
            pending: Seq::empty(),
            workers: Seq::new(worker_count, |i: int| WorkerState::Idle),
            closed: false,
            accepted: 0,
            finished: 0,
            failures: Seq::empty(),
        }
    }

    /// Whether `worker` is the number of a worker that is idle.
    pub open spec fn is_idle(self, worker: int) -> bool {
        0 <= worker < self.workers.len() && self.workers[worker] is Idle
    }

    /// Whether `worker` is the number of a worker that is running a job.
    pub open spec fn is_executing(self, worker: int) -> bool {
        0 <= worker < self.workers.len() && self.workers[worker] is Executing
    }

    /// Whether every worker has stopped.
    pub open spec fn all_stopped(self) -> bool {
        forall|w: int| 0 <= w < self.workers.len() ==> (#[trigger] self.workers[w]) is Stopped
    }

    /// Whether nothing is left to do: no job waits and none is running.
    pub open spec fn drained(self) -> bool {
        self.pending.len() == 0 && executing(self.workers) == 0
    }

    /// The pool after `submit(job)`: an open pool appends the job to its
    /// backlog, a closed one is unchanged.
    pub open spec fn submit(self, job: J) -> PoolView<J> {
        if self.closed {
            self
        } else {
            PoolView { pending: self.pending.push(job), accepted: self.accepted + 1, ..self }
        }
    }

    /// What `claim(worker)` answers.
    pub open spec fn claim_answer(self, worker: int) -> Claim<J> {
        if !self.is_idle(worker) {
            Claim::Refused
        } else if self.pending.len() > 0 {
            Claim::Job(self.pending[0])
        } else if self.closed {
            Claim::Stop
        } else {
            Claim::Wait
        }
    }

    /// The pool after `claim(worker)`: the oldest job leaves the backlog and
    /// the worker is executing; or the worker has stopped; or nothing changed.
    pub open spec fn claim(self, worker: int) -> PoolView<J> {
        match self.claim_answer(worker) {
            Claim::Job(_) => PoolView {
                pending: self.pending.drop_first(),
                workers: self.workers.update(worker, WorkerState::Executing),
                ..self
            },
            Claim::Stop => PoolView {
                workers: self.workers.update(worker, WorkerState::Stopped),
                ..self
            },
            _ => self,
        }
    }

    /// The pool after `finish(worker, outcome)`: a worker that was executing
    /// is idle again, whichever way the job ended, and a failure is recorded.
    /// A call for a worker that was not executing changes nothing.
    pub open spec fn finish(self, worker: int, outcome: JobOutcome) -> PoolView<J> {
        if self.is_executing(worker) {
            PoolView {
                workers: self.workers.update(worker, WorkerState::Idle),
                finished: self.finished + 1,
                failures: match outcome {
                    JobOutcome::Completed => self.failures,
                    JobOutcome::Failed(why) => self.failures.push(VortexError::JobExecution(why)),
                },
                ..self
            }
        } else {
            self
        }
    }

    /// The pool after `close`.
    pub open spec fn close(self) -> PoolView<J> {
        PoolView { closed: true, ..self }
    }

    /// The pool after `take_failures`.
    pub open spec fn without_failures(self) -> PoolView<J> {
        PoolView { failures: Seq::empty(), ..self }
    }

    /// What holds of every pool: it has a worker; every accepted job is in
    /// exactly one place (waiting, running on one worker, or ended); and no
    /// worker has stopped unless the pool is closed and its backlog empty.
    pub open spec fn inv(self) -> bool {
        &&& 0 < self.workers.len() <= MAX_WORKERS
        &&& self.accepted == self.pending.len() + executing(self.workers) + self.finished
        &&& forall|w: int|
            0 <= w < self.workers.len() && (#[trigger] self.workers[w]) is Stopped ==> self.closed
                && self.pending.len() == 0
    }
}

/// Changing one worker's state changes the number of executing workers by
/// what that worker adds or takes away.
pub proof fn lemma_executing_update(workers: Seq<WorkerState>, worker: int, state: WorkerState)
    requires
        0 <= worker < workers.len(),
    ensures
        executing(workers.update(worker, state)) + (if workers[worker] is Executing {
            1nat
        } else {
            0nat
        }) == executing(workers) + (if state is Executing {
            1nat
        } else {
            0nat
        }),
    decreases workers.len(),
{
    let updated = workers.update(worker, state);
    if worker == workers.len() - 1 {
        assert(updated.drop_last() =~= workers.drop_last());
    } else {
        lemma_executing_update(workers.drop_last(), worker, state);
        assert(updated.drop_last() =~= workers.drop_last().update(worker, state));
    }
}

/// No more workers are executing than there are workers, and none is where
/// none is in that state.
pub proof fn lemma_executing_bounds(workers: Seq<WorkerState>)
    ensures
        executing(workers) <= workers.len(),
        (forall|w: int| 0 <= w < workers.len() ==> !((#[trigger] workers[w]) is Executing))
            ==> executing(workers) == 0,
        executing(workers) == 0 ==> forall|w: int|
            0 <= w < workers.len() ==> !((#[trigger] workers[w]) is Executing),
    decreases workers.len(),
{
    if workers.len() > 0 {
        lemma_executing_bounds(workers.drop_last());
        assert forall|w: int|
            0 <= w < workers.len() && executing(workers) == 0 implies !((#[trigger] workers[w])
            is Executing) by {
            if w < workers.len() - 1 {
                assert(workers.drop_last()[w] == workers[w]);
            }
        }
        if forall|w: int| 0 <= w < workers.len() ==> !((#[trigger] workers[w]) is Executing) {
            assert forall|w: int| 0 <= w < workers.drop_last().len() implies !((
            #[trigger] workers.drop_last()[w]) is Executing) by {
                assert(workers.drop_last()[w] == workers[w]);
            }
        }
    }
}

/// The shared state of a worker pool: the backlog of jobs, the state of each
/// worker, and the failures that were reported.
pub struct Dispatcher<J> {
    pending: VecDeque<J>,
    workers: Vec<WorkerState>,
    closed: bool,
    failures: Vec<VortexError>,
    accepted: Ghost<nat>,
    finished: Ghost<nat>,
}

impl<J> View for Dispatcher<J> {
    type V = PoolView<J>;

    closed spec fn view(&self) -> PoolView<J> {
        PoolView {
            pending: self.pending@,
            workers: self.workers@,
            closed: self.closed,
            accepted: self.accepted@,
            finished: self.finished@,
            failures: self.failures@,
        }
    }
}

impl<J> Dispatcher<J> {
    /// The dispatcher's invariant.
    pub open spec fn wf(&self) -> bool {
        self@.inv()
    }

    /// Builds the state of a pool of `worker_count` idle workers, open and
    /// with nothing to do. Fails for a worker count of zero and for one above
    /// `MAX_WORKERS`.
    pub fn new(worker_count: usize) -> (r: Result<Self, VortexError>)
        ensures
            match r {
                Ok(pool) => {
                    &&& worker_count_refusal(worker_count) is None
                    &&& pool.wf()
                    &&& pool@ == PoolView::<J>::initial(worker_count as nat)
                },
                Err(e) => e matches VortexError::PoolCreation(why) && worker_count_refusal(
                    worker_count,
                ) == Some(why@),
            },
    {
        if worker_count == 0 {
            return Err(
                VortexError::PoolCreation(String::from_str("worker count must be at least 1")),
            );
        }
        if worker_count > MAX_WORKERS {
            return Err(
                VortexError::PoolCreation(
                    String::from_str("worker count exceeds the supported maximum"),
                ),
            );
        }
        let mut workers: Vec<WorkerState> = Vec::with_capacity(worker_count);
        let mut made: usize = 0;
        while made < worker_count
            invariant
                made <= worker_count,
                workers@.len() == made,
                forall|w: int| 0 <= w < made ==> workers@[w] is Idle,
            decreases worker_count - made,
        {
            workers.push(WorkerState::Idle);
            made += 1;
        }
        let pool = Dispatcher {
            pending: VecDeque::new(),
            workers,
            closed: false,
            failures: Vec::new(),
            accepted: Ghost(0),
            finished: Ghost(0),
        };
        proof {
            assert(pool@.workers =~= PoolView::<J>::initial(worker_count as nat).workers);
            lemma_executing_bounds(pool@.workers);
        }
        Ok(pool)
    }

    /// The number of workers.
    pub fn worker_count(&self) -> (r: usize)
        ensures
            r == self@.workers.len(),
    {
        self.workers.len()
    }

    /// The state of a worker, or `None` if the pool has no worker of that
    /// number.
    pub fn worker_state(&self, worker: usize) -> (r: Option<WorkerState>)
        ensures
            r == if worker < self@.workers.len() {
                Some(self@.workers[worker as int])
            } else {
                None
            },
    {
        if worker < self.workers.len() {
            Some(self.workers[worker])
        } else {
            None
        }
    }

    /// The number of jobs that wait for a worker.
    pub fn pending_jobs(&self) -> (r: usize)
        ensures
            r == self@.pending.len(),
    {
        self.pending.len()
    }

    /// Whether the shutdown has begun.
    pub fn is_closed(&self) -> (r: bool)
        ensures
            r == self@.closed,
    {
        self.closed
    }

    /// Whether every worker has left its loop.
    pub fn all_stopped(&self) -> (r: bool)
        ensures
            r == self@.all_stopped(),
    {
        let mut w: usize = 0;
        while w < self.workers.len()
            invariant
                w <= self.workers@.len(),
                forall|v: int| 0 <= v < w ==> (#[trigger] self.workers@[v]) is Stopped,
            decreases self.workers@.len() - w,
        {
            match self.workers[w] {
                WorkerState::Stopped => {},
                _ => {
                    return false;
                },
            }
            w += 1;
        }
        true
    }

    /// Adds a job to the backlog. Never blocks. A closed pool accepts nothing:
    /// the job is dropped and `VortexError::PoolShutdown` is returned.
    pub fn submit(&mut self, job: J) -> (r: Result<(), VortexError>)
        requires
            old(self).wf(),
        ensures
            final(self).wf(),
            final(self)@ == old(self)@.submit(job),
            r is Err <==> old(self)@.closed,
            r is Err ==> r == Err::<(), VortexError>(VortexError::PoolShutdown),
    {
        if self.closed {
            return Err(VortexError::PoolShutdown);
        }
        self.pending.push_back(job);
        proof {
            self.accepted@ = self.accepted@ + 1;
        }
        Ok(())
    }

    /// Answers a worker that asks for work. An idle worker gets the oldest
    /// waiting job and is executing from then on; with nothing waiting it is
    /// told to wait, or, once the pool is closed, to stop, and has then
    /// stopped. Any other caller is refused and changes nothing.
    pub fn claim(&mut self, worker: usize) -> (r: Claim<J>)
        requires
            old(self).wf(),
        ensures
            final(self).wf(),
            r == old(self)@.claim_answer(worker as int),
            final(self)@ == old(self)@.claim(worker as int),
    {
        if worker >= self.workers.len() {
            return Claim::Refused;
        }
        match self.workers[worker] {
            WorkerState::Idle => {},
            _ => {
                return Claim::Refused;
            },
        }
        proof {
            lemma_executing_update(self.workers@, worker as int, WorkerState::Executing);
            lemma_executing_update(self.workers@, worker as int, WorkerState::Stopped);
        }
        match self.pending.pop_front() {
            Some(job) => {
                self.workers.set(worker, WorkerState::Executing);
                Claim::Job(job)
            },
            None => {
                if self.closed {
                    self.workers.set(worker, WorkerState::Stopped);
                    Claim::Stop
                } else {
                    Claim::Wait
                }
            },
        }
    }

    /// Records the end of the job that `worker` was running. The worker is
    /// idle again whether the job completed or failed; a failure is kept for
    /// `take_failures`. Returns `false`, and changes nothing, when `worker`
    /// was not executing.
    pub fn finish(&mut self, worker: usize, outcome: JobOutcome) -> (r: bool)
        requires
            old(self).wf(),
        ensures
            final(self).wf(),
            r == old(self)@.is_executing(worker as int),
            final(self)@ == old(self)@.finish(worker as int, outcome),
    {
        if worker >= self.workers.len() {
            return false;
        }
        match self.workers[worker] {
            WorkerState::Executing => {},
            _ => {
                return false;
            },
        }
        proof {
            lemma_executing_update(self.workers@, worker as int, WorkerState::Idle);
        }
        self.workers.set(worker, WorkerState::Idle);
        match outcome {
            JobOutcome::Completed => {},
            JobOutcome::Failed(why) => {
                self.failures.push(VortexError::JobExecution(why));
            },
        }
        proof {
            self.finished@ = self.finished@ + 1;
        }
        true
    }

    /// Begins the shutdown: from now on `submit` is refused. Jobs that wait
    /// stay in the backlog and are still handed out.
    pub fn close(&mut self)
        requires
            old(self).wf(),
        ensures
            final(self).wf(),
            final(self)@ == old(self)@.close(),
    {
        self.closed = true;
    }

    /// Hands over the failures reported since the last call, oldest first.
    pub fn take_failures(&mut self) -> (r: Vec<VortexError>)
        requires
            old(self).wf(),
        ensures
            final(self).wf(),
            r@ == old(self)@.failures,
            final(self)@ == old(self)@.without_failures(),
    {
        let mut taken: Vec<VortexError> = Vec::new();
        std::mem::swap(&mut taken, &mut self.failures);
        taken
    }
}

/// One call on a pool.
pub ghost enum PoolEvent<J> {
    Submit(J),
    Claim(int),
    Finish(int, JobOutcome),
    Close,
    TakeFailures,
}

/// The pool after one more call.
pub open spec fn pool_step<J>(pool: PoolView<J>, event: PoolEvent<J>) -> PoolView<J> {
    match event {
        PoolEvent::Submit(job) => pool.submit(job),
        PoolEvent::Claim(worker) => pool.claim(worker),
        PoolEvent::Finish(worker, outcome) => pool.finish(worker, outcome),
        PoolEvent::Close => pool.close(),
        PoolEvent::TakeFailures => pool.without_failures(),
    }
}

/// A new pool of `worker_count` workers after `events`, first to last.
pub open spec fn pool_run<J>(worker_count: nat, events: Seq<PoolEvent<J>>) -> PoolView<J>
    decreases events.len(),
{
    if events.len() == 0 {
        PoolView::initial(worker_count)
    } else {
        pool_step(pool_run(worker_count, events.drop_last()), events.last())
    }
}

/// The pool after `worker` has taken and completed each of `jobs` in turn,
/// every job being submitted just before it is taken.
pub open spec fn serve_each<J>(pool: PoolView<J>, worker: int, jobs: Seq<J>) -> PoolView<J>
    decreases jobs.len(),
{
    if jobs.len() == 0 {
        pool
    } else {
        serve_each(pool, worker, jobs.drop_last()).submit(jobs.last()).claim(worker).finish(
            worker,
            JobOutcome::Completed,
        )
    }
}

/// Every call keeps the pool's invariant.
pub proof fn lemma_step_keeps_invariant<J>(pool: PoolView<J>, event: PoolEvent<J>)
    requires
        pool.inv(),
    ensures
        pool_step(pool, event).inv(),
{
    match event {
        PoolEvent::Claim(worker) => {
            if pool.is_idle(worker) {
                lemma_executing_update(pool.workers, worker, WorkerState::Executing);
                lemma_executing_update(pool.workers, worker, WorkerState::Stopped);
            }
        },
        PoolEvent::Finish(worker, outcome) => {
            if pool.is_executing(worker) {
                lemma_executing_update(pool.workers, worker, WorkerState::Idle);
            }
        },
        _ => {},
    }
}

/// Whatever calls are made on a new pool, its invariant holds afterwards.
pub proof fn lemma_run_keeps_invariant<J>(worker_count: nat, events: Seq<PoolEvent<J>>)
    requires
        0 < worker_count <= MAX_WORKERS,
    ensures
        pool_run(worker_count, events).inv(),
    decreases events.len(),
{
    if events.len() == 0 {
        lemma_executing_bounds(PoolView::<J>::initial(worker_count).workers);
    } else {
        lemma_run_keeps_invariant(worker_count, events.drop_last());
        lemma_step_keeps_invariant(pool_run(worker_count, events.drop_last()), events.last());
    }
}

/// No double dispatch, and no job lost: whatever calls are made on a new pool,
/// and however many workers it has, every accepted job is waiting, running on
/// one worker, or ended; so once nothing waits and nothing runs, exactly as
/// many jobs have ended as were accepted. A claimed job leaves the backlog in
/// the same step, so no second claim can get it.
pub proof fn law_every_job_runs_once<J>(worker_count: nat, events: Seq<PoolEvent<J>>)
    requires
        0 < worker_count <= MAX_WORKERS,
    ensures
        ({
            let pool = pool_run(worker_count, events);
            &&& pool.workers.len() == worker_count
            &&& pool.accepted == pool.pending.len() + executing(pool.workers) + pool.finished
            &&& executing(pool.workers) <= worker_count
            &&& pool.drained() ==> pool.finished == pool.accepted
        }),
    decreases events.len(),
{
    lemma_run_keeps_invariant(worker_count, events);
    lemma_executing_bounds(pool_run(worker_count, events).workers);
    if events.len() > 0 {
        law_every_job_runs_once(worker_count, events.drop_last());
    }
}

/// A claim hands out the oldest waiting job, to the worker that asked and to
/// no other: the job is gone from the backlog afterwards, and that worker
/// alone has changed its state.
pub proof fn law_claim_is_exclusive<J>(pool: PoolView<J>, worker: int)
    requires
        pool.inv(),
        pool.is_idle(worker),
        pool.pending.len() > 0,
    ensures
        pool.claim_answer(worker) == Claim::Job(pool.pending[0]),
        pool.claim(worker).pending == pool.pending.drop_first(),
        pool.claim(worker).is_executing(worker),
        forall|other: int|
            0 <= other < pool.workers.len() && other != worker ==> pool.claim(
                worker,
            ).workers[other] == #[trigger] pool.workers[other],
        executing(pool.claim(worker).workers) == executing(pool.workers) + 1,
{
    lemma_executing_update(pool.workers, worker, WorkerState::Executing);
}

/// Worker resilience: a job that fails leaves its worker idle, not stopped,
/// with the backlog untouched and the failure on record; the worker then
/// takes the next waiting job like any other idle worker.
pub proof fn law_failure_keeps_worker<J>(pool: PoolView<J>, worker: int, why: String)
    requires
        pool.inv(),
        pool.is_executing(worker),
    ensures
        ({
            let after = pool.finish(worker, JobOutcome::Failed(why));
            &&& after.inv()
            &&& after.is_idle(worker)
            &&& after.pending == pool.pending
            &&& after.closed == pool.closed
            &&& after.failures == pool.failures.push(VortexError::JobExecution(why))
            &&& after.pending.len() > 0 ==> after.claim_answer(worker) == Claim::Job(
                after.pending[0],
            )
        }),
{
    lemma_step_keeps_invariant(pool, PoolEvent::Finish(worker, JobOutcome::Failed(why)));
}

/// A worker that is idle in an open pool with an empty backlog completes
/// every job of any sequence submitted to it, one after the other.
pub proof fn lemma_serve_each<J>(pool: PoolView<J>, worker: int, jobs: Seq<J>)
    requires
        pool.inv(),
        pool.is_idle(worker),
        !pool.closed,
        pool.pending.len() == 0,
    ensures
        ({
            let after = serve_each(pool, worker, jobs);
            &&& after.inv()
            &&& after.is_idle(worker)
            &&& !after.closed
            &&& after.pending.len() == 0
            &&& after.accepted == pool.accepted + jobs.len()
            &&& after.finished == pool.finished + jobs.len()
            &&& after.failures == pool.failures
        }),
    decreases jobs.len(),
{
    if jobs.len() > 0 {
        lemma_serve_each(pool, worker, jobs.drop_last());
        let before = serve_each(pool, worker, jobs.drop_last());
        let submitted = before.submit(jobs.last());
        lemma_step_keeps_invariant(before, PoolEvent::Submit(jobs.last()));
        assert(submitted.pending =~= seq![jobs.last()]);
        let claimed = submitted.claim(worker);
        lemma_step_keeps_invariant(submitted, PoolEvent::Claim(worker));
        assert(claimed.pending =~= Seq::<J>::empty());
        lemma_step_keeps_invariant(claimed, PoolEvent::Finish(worker, JobOutcome::Completed));
    }
}

/// Worker resilience, end to end: when the job that a worker runs fails,
/// every job of any sequence submitted afterwards is still completed by that
/// same worker, and the one failure is all that is on record.
pub proof fn law_jobs_after_a_failure_complete<J>(
    pool: PoolView<J>,
    worker: int,
    why: String,
    jobs: Seq<J>,
)
    requires
        pool.inv(),
        pool.is_executing(worker),
        !pool.closed,
        pool.pending.len() == 0,
    ensures
        ({
            let after = serve_each(pool.finish(worker, JobOutcome::Failed(why)), worker, jobs);
            &&& after.is_idle(worker)
            &&& after.pending.len() == 0
            &&& after.finished == pool.finished + 1 + jobs.len()
            &&& after.accepted == pool.accepted + jobs.len()
            &&& after.failures == pool.failures.push(VortexError::JobExecution(why))
        }),
{
    law_failure_keeps_worker(pool, worker, why);
    lemma_serve_each(pool.finish(worker, JobOutcome::Failed(why)), worker, jobs);
}

/// Shutdown drains: whatever calls are made on a new pool, a closed pool
/// accepts no further job and is not changed by a `submit`; a closed pool
/// still hands out what waits; no worker has stopped while a job waits; and
/// once every worker has stopped, the pool is closed, nothing waits, and every
/// job that was ever accepted has ended.
pub proof fn law_shutdown_drains<J>(worker_count: nat, events: Seq<PoolEvent<J>>, job: J)
    requires
        0 < worker_count <= MAX_WORKERS,
    ensures
        ({
            let pool = pool_run(worker_count, events);
            &&& pool.closed ==> pool.submit(job) == pool
            &&& pool.close().pending == pool.pending
            &&& forall|w: int|
                pool.is_idle(w) && pool.pending.len() > 0 ==> #[trigger] pool.claim_answer(w)
                    == Claim::Job(pool.pending[0])
            &&& forall|w: int|
                #[trigger] pool.claim_answer(w) == Claim::<J>::Stop ==> pool.closed
                    && pool.pending.len() == 0
            &&& forall|w: int|
                0 <= w < pool.workers.len() && (#[trigger] pool.workers[w]) is Stopped
                    ==> pool.closed && pool.pending.len() == 0
            &&& pool.all_stopped() ==> pool.closed && pool.pending.len() == 0 && pool.finished
                == pool.accepted
        }),
{
    lemma_run_keeps_invariant(worker_count, events);
    let pool = pool_run(worker_count, events);
    lemma_executing_bounds(pool.workers);
    if pool.all_stopped() {
        assert(pool.workers[0] is Stopped);
    }
}

} // verus!
