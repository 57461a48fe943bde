use std::collections::VecDeque;
use vstd::prelude::*;

verus! {

/// Where a worker stands in its claim-and-run loop.
#[derive(PartialEq, Eq, Structural, Clone, Copy, Debug)]
pub enum WorkerState {
    /// Waiting for a job, or about to ask for one.
    Idle,
    /// Running the job it claimed last; the queue is free for the others.
    Busy,
    /// Done for good: the pool was closed and nothing was left to run.
    Stopped,
}

/// Why a pool could not be made.
#[derive(PartialEq, Eq, Structural, Clone, Copy, Debug)]
pub enum PoolError {
    /// A pool needs at least one worker.
    NoWorkers,
}

/// A submission that the pool refused because it is closed; the job comes back
/// to the caller unrun.
pub struct Closed<J> {
    pub job: J,
}

/// What a worker is told when it asks for work.
pub enum Claim<J> {
    /// Run this job; it is now the worker's alone.
    Run(J),
    /// Nothing queued yet: wait for a submission or for the pool to close.
    Wait,
    /// The pool is closed and drained: leave the loop.
    Stop,
}

/// The abstract state of a pool.
pub ghost struct PoolView<J> {
    /// Jobs accepted and not yet claimed, oldest first.
    pub queue: Seq<J>,
    /// The state of each worker, by ordinal.
    pub workers: Seq<WorkerState>,
    /// Whether the pool has stopped accepting jobs.
    pub closed: bool,
    /// Every job ever accepted, in order of submission.
    pub submitted: Seq<J>,
    /// For each job claimed so far, in order, the worker that claimed it.
    pub takers: Seq<nat>,
}

impl<J> PoolView<J> {
    /// A fresh pool of `n` idle workers, open, with nothing submitted.
    pub open spec fn init(n: nat) -> PoolView<J> {
        PoolView {
            queue: Seq::empty(),
            workers: Seq::new(n, |i: int| WorkerState::Idle),
            closed: false,
            submitted: Seq::empty(),
            takers: Seq::empty(),
        }
    }

    /// The jobs handed to a worker so far, in the order they were claimed.
    pub open spec fn delivered(self) -> Seq<J> {
        self.submitted.take(self.takers.len() as int)
    }

    /// Whether `w` names a worker of the pool.
    pub open spec fn has_worker(self, w: nat) -> bool {
        w < self.workers.len()
    }

    /// How many workers are running a job.
    pub open spec fn busy_count(self) -> nat {
        self.workers.filter(|s: WorkerState| s == WorkerState::Busy).len()
    }

    /// The pool is well formed: it has workers; what is queued is exactly what
    /// was submitted and not yet claimed; every claim was made by one of its
    /// workers; a worker stops only once the pool is closed and drained.
    pub open spec fn wf(self) -> bool {
        &&& self.workers.len() > 0
        &&& self.takers.len() <= self.submitted.len()
        &&& self.queue == self.submitted.subrange(
            self.takers.len() as int,
            self.submitted.len() as int,
        )
        &&& forall|i: int| 0 <= i < self.takers.len() ==> #[trigger] self.takers[i] < self.workers.len()
        &&& forall|w: int|
            0 <= w < self.workers.len() && #[trigger] self.workers[w] == WorkerState::Stopped
                ==> self.closed && self.queue.len() == 0
    }

    /// The state after `job` is submitted: queued at the back if the pool is
    /// open, refused otherwise.
    pub open spec fn after_submit(self, job: J) -> PoolView<J> {
        if self.closed {
            self
        } else {
            PoolView {
                queue: self.queue.push(job),
                submitted: self.submitted.push(job),
                ..self
            }
        }
    }

    /// What a submission of `job` returns.
    pub open spec fn submit_result(self, job: J) -> Result<(), Closed<J>> {
        if self.closed {
            Err(Closed { job })
        } else {
            Ok(())
        }
    }

    /// What an idle worker is told when it asks for work: the oldest queued
    /// job if there is one, else to stop if the pool is closed, else to wait.
    pub open spec fn claim_result(self) -> Claim<J> {
        if self.queue.len() > 0 {
            Claim::Run(self.queue[0])
        } else if self.closed {
            Claim::Stop
        } else {
            Claim::Wait
        }
    }

    /// The state after worker `w` asks for work.
    pub open spec fn after_claim(self, w: nat) -> PoolView<J> {
        if self.queue.len() > 0 {
            PoolView {
                queue: self.queue.drop_first(),
                workers: self.workers.update(w as int, WorkerState::Busy),
                takers: self.takers.push(w),
                ..self
            }
        } else if self.closed {
            PoolView { workers: self.workers.update(w as int, WorkerState::Stopped), ..self }
        } else {
            self
        }
    }

    /// The state after worker `w` is done with its job, whether the job
    /// returned or aborted.
    pub open spec fn after_finish(self, w: nat) -> PoolView<J> {
        PoolView { workers: self.workers.update(w as int, WorkerState::Idle), ..self }
    }

    /// The state after the pool stops accepting jobs.
    pub open spec fn after_close(self) -> PoolView<J> {
        PoolView { closed: true, ..self }
    }
}

/// The dispatch state of a worker pool: the queue of jobs, the state of each
/// worker, and whether the pool still accepts jobs. It decides; the threads
/// that run the jobs act on its answers.
pub struct PoolCore<J> {
    queue: VecDeque<J>,
    workers: Vec<WorkerState>,
    closed: bool,
    submitted: Ghost<Seq<J>>,
    takers: Ghost<Seq<nat>>,
}

impl<J> View for PoolCore<J> {
    type V = PoolView<J>;

    closed spec fn view(&self) -> PoolView<J> {
        PoolView {
            queue: self.queue@,
            workers: self.workers@,
            closed: self.closed,
            submitted: self.submitted@,
            takers: self.takers@,
        }
    }
}

impl<J> PoolCore<J> {
    /// The pool is well formed.
    pub open spec fn wf(&self) -> bool {
        self@.wf()
    }

    /// A pool of `size` idle workers that accepts jobs; refused when `size`
    /// is zero.
    pub fn new(size: usize) -> (r: Result<PoolCore<J>, PoolError>)
        ensures
            r is Err <==> size == 0,
            r matches Err(e) ==> e == PoolError::NoWorkers,
            r matches Ok(p) ==> p.wf() && p@ == PoolView::<J>::init(size as nat),
    {
        if size == 0 {
            return Err(PoolError::NoWorkers);
        }
        let mut workers: Vec<WorkerState> = Vec::with_capacity(size);
        let mut i: usize = 0;
        while i < size
            invariant
                i <= size,
                workers@ == Seq::new(i as nat, |k: int| WorkerState::Idle),
            decreases size - i,
        {
            workers.push(WorkerState::Idle);
            i = i + 1;
            assert(workers@ =~= Seq::new(i as nat, |k: int| WorkerState::Idle));
        }
        let p = PoolCore {
            queue: VecDeque::new(),
            workers,
            closed: false,
            submitted: Ghost(Seq::empty()),
            takers: Ghost(Seq::empty()),
        };
        assert(p@.queue =~= p@.submitted.subrange(0, 0));
        assert(p@ == PoolView::<J>::init(size as nat));
        Ok(p)
    }

    /// The number of workers.
    pub fn size(&self) -> (r: usize)
        ensures
            r == self@.workers.len(),
    {
        self.workers.len()
    }

    /// The state of worker `w`.
    pub fn worker_state(&self, w: usize) -> (r: WorkerState)
        requires
            w < self@.workers.len(),
        ensures
            r == self@.workers[w as int],
    {
        self.workers[w]
    }

    /// Whether the pool has stopped accepting jobs.
    pub fn is_closed(&self) -> (r: bool)
        ensures
            r == self@.closed,
    {
        self.closed
    }

    /// The number of jobs accepted and not yet claimed.
    pub fn queued(&self) -> (r: usize)
        ensures
            r == self@.queue.len(),
    {
        self.queue.len()
    }

    /// Queues `job` behind those already waiting, or hands it back if the
    /// pool is closed. Never waits for any job to run.
    pub fn submit(&mut self, job: J) -> (r: Result<(), Closed<J>>)
        requires
            old(self).wf(),
        ensures
            final(self).wf(),
            final(self)@ == old(self)@.after_submit(job),
            r == old(self)@.submit_result(job),
    {
        if self.closed {
            return Err(Closed { job });
        }
        proof {
            self.submitted@ = self.submitted@.push(job);
        }
        self.queue.push_back(job);
        assert(self@.queue =~= self@.submitted.subrange(
            self@.takers.len() as int,
            self@.submitted.len() as int,
        ));
        Ok(())
    }

    /// Worker `w`, idle, asks for work: it takes the oldest queued job if
    /// there is one; else it stops if the pool is closed, or waits.
    pub fn claim(&mut self, w: usize) -> (r: Claim<J>)
        requires
            old(self).wf(),
            w < old(self)@.workers.len(),
            old(self)@.workers[w as int] == WorkerState::Idle,
        ensures
            final(self).wf(),
            final(self)@ == old(self)@.after_claim(w as nat),
            r == old(self)@.claim_result(),
    {
        match self.queue.pop_front() {
            Some(job) => {
                self.workers.set(w, WorkerState::Busy);
                proof {
                    self.takers@ = self.takers@.push(w as nat);
                }
                assert(self@.queue =~= self@.submitted.subrange(
                    self@.takers.len() as int,
                    self@.submitted.len() as int,
                ));
                assert(self@.workers =~= old(self)@.workers.update(w as int, WorkerState::Busy));
                Claim::Run(job)
            },
            None => {
                if self.closed {
                    self.workers.set(w, WorkerState::Stopped);
                    assert(self@.workers =~= old(self)@.workers.update(
                        w as int,
                        WorkerState::Stopped,
                    ));
                    Claim::Stop
                } else {
                    Claim::Wait
                }
            },
        }
    }

    /// Worker `w` is done with the job it claimed, whether the job returned
    /// or aborted: it is idle again.
    pub fn finish(&mut self, w: usize)
        requires
            old(self).wf(),
            w < old(self)@.workers.len(),
            old(self)@.workers[w as int] == WorkerState::Busy,
        ensures
            final(self).wf(),
            final(self)@ == old(self)@.after_finish(w as nat),
    {
        self.workers.set(w, WorkerState::Idle);
        assert(self@.workers =~= old(self)@.workers.update(w as int, WorkerState::Idle));
    }

    /// Stops accepting jobs. Jobs already queued are still handed out; a
    /// worker that then finds the queue empty is told to stop.
    pub fn close(&mut self)
        requires
            old(self).wf(),
        ensures
            final(self).wf(),
            final(self)@ == old(self)@.after_close(),
    {
        self.closed = true;
    }

    /// Whether every worker has stopped, which ends the pool's teardown.
    pub fn all_stopped(&self) -> (r: bool)
        ensures
            r == forall|w: int|
                0 <= w < self@.workers.len() ==> self@.workers[w] == WorkerState::Stopped,
    {
        let mut i: usize = 0;
        while i < self.workers.len()
            invariant
                i <= self@.workers.len(),
                forall|k: int| 0 <= k < i ==> self@.workers[k] == WorkerState::Stopped,
            decreases self@.workers.len() - i,
        {
            if self.workers[i] != WorkerState::Stopped {
                return false;
            }
            i = i + 1;
        }
        true
    }
}

} // verus!
