//! What a pool guarantees over sequences of operations, proved over its
//! abstract state.
use crate::pool::{Claim, PoolView, WorkerState};
use vstd::prelude::*;

verus! {

/// Every operation keeps a pool well formed.
pub proof fn lemma_operations_keep_wf<J>(v: PoolView<J>, job: J, w: nat)
    requires
        v.wf(),
        v.has_worker(w),
    ensures
        v.after_submit(job).wf(),
        v.after_close().wf(),
        v.workers[w as int] == WorkerState::Idle ==> v.after_claim(w).wf(),
        v.workers[w as int] == WorkerState::Busy ==> v.after_finish(w).wf(),
{
    let s = v.after_submit(job);
    if !v.closed {
        assert(s.queue =~= s.submitted.subrange(s.takers.len() as int, s.submitted.len() as int));
    }
    if v.workers[w as int] == WorkerState::Idle {
        let c = v.after_claim(w);
        if v.queue.len() > 0 {
            assert(c.queue =~= c.submitted.subrange(c.takers.len() as int, c.submitted.len() as int));
            assert forall|i: int| 0 <= i < c.takers.len() implies #[trigger] c.takers[i] < c.workers.len() by {
                if i < v.takers.len() {
                    assert(c.takers[i] == v.takers[i]);
                }
            }
            assert forall|u: int| 0 <= u < c.workers.len() && #[trigger] c.workers[u] == WorkerState::Stopped implies c.closed && c.queue.len() == 0 by {
                assert(v.workers[u] == WorkerState::Stopped);
            }
        }
    }
}

/// A pool made with `n >= 1` workers has exactly `n` workers, all idle, and
/// accepts work at once: any one of them, asking first, runs the first job
/// submitted.
pub proof fn lemma_new_pool_ready<J>(n: nat, w: nat, job: J)
    requires
        n >= 1,
        w < n,
    ensures
        PoolView::<J>::init(n).wf(),
        PoolView::<J>::init(n).workers.len() == n,
        forall|u: int| 0 <= u < n ==> #[trigger] PoolView::<J>::init(n).workers[u] == WorkerState::Idle,
        PoolView::<J>::init(n).submit_result(job) is Ok,
        PoolView::<J>::init(n).after_submit(job).workers[w as int] == WorkerState::Idle,
        PoolView::<J>::init(n).after_submit(job).claim_result() == Claim::Run(job),
{
    let v = PoolView::<J>::init(n);
    assert(v.queue =~= v.submitted.subrange(0, 0));
    assert(v.after_submit(job).queue =~= seq![job]);
}

/// No job is lost and none is handed out twice: what was submitted is always
/// what was delivered to workers, each once and in order, followed by what is
/// still queued.
pub proof fn lemma_delivered_then_queued<J>(v: PoolView<J>)
    requires
        v.wf(),
    ensures
        v.submitted =~= v.delivered() + v.queue,
{
}

/// A claim hands out exactly the oldest job not yet delivered and records it
/// as delivered once; any other answer delivers nothing. A submission
/// delivers nothing. So each job reaches exactly one worker, exactly once.
pub proof fn lemma_claim_delivers_once<J>(v: PoolView<J>, w: nat, job: J)
    requires
        v.wf(),
        v.has_worker(w),
        v.workers[w as int] == WorkerState::Idle,
    ensures
        v.after_submit(job).delivered() == v.delivered(),
        v.after_claim(w).submitted == v.submitted,
        v.claim_result() matches Claim::Run(j) ==> {
            &&& j == v.submitted[v.delivered().len() as int]
            &&& v.after_claim(w).delivered() == v.delivered().push(j)
            &&& v.after_claim(w).takers.last() == w
        },
        !(v.claim_result() is Run) ==> v.after_claim(w).delivered() == v.delivered(),
{
    if !v.closed {
        assert(v.after_submit(job).delivered() =~= v.delivered());
    }
    if v.queue.len() > 0 {
        assert(v.queue[0] == v.submitted[v.takers.len() as int]);
        assert(v.after_claim(w).delivered() =~= v.delivered().push(v.queue[0]));
    }
}

/// Once every worker has stopped, every submitted job has been delivered.
pub proof fn lemma_teardown_delivers_all<J>(v: PoolView<J>)
    requires
        v.wf(),
        forall|u: int| 0 <= u < v.workers.len() ==> v.workers[u] == WorkerState::Stopped,
    ensures
        v.queue.len() == 0,
        v.delivered() == v.submitted,
{
    assert(v.workers[0] == WorkerState::Stopped);
    assert(v.submitted =~= v.delivered() + v.queue);
    assert(v.delivered() =~= v.submitted);
}

/// At most as many jobs run at once as the pool has workers.
pub proof fn lemma_running_bounded<J>(v: PoolView<J>)
    requires
        v.wf(),
    ensures
        v.busy_count() <= v.workers.len(),
{
    v.workers.lemma_filter_len(|s: WorkerState| s == WorkerState::Busy);
}

/// A worker busy with a long job does not block the pool: a submission is
/// still accepted, an idle worker still gets a job, and the busy worker keeps
/// running its own. With nothing queued before, the job it gets is the one
/// just submitted.
pub proof fn lemma_busy_worker_does_not_block<J>(v: PoolView<J>, b: nat, w: nat, job: J)
    requires
        v.wf(),
        !v.closed,
        v.has_worker(b),
        v.has_worker(w),
        v.workers[b as int] == WorkerState::Busy,
        v.workers[w as int] == WorkerState::Idle,
    ensures
        v.submit_result(job) is Ok,
        v.after_submit(job).claim_result() is Run,
        v.queue.len() == 0 ==> v.after_submit(job).claim_result() == Claim::Run(job),
        v.after_submit(job).after_claim(w).workers[b as int] == WorkerState::Busy,
        v.after_submit(job).after_claim(w).workers[w as int] == WorkerState::Busy,
{
    if v.queue.len() == 0 {
        assert(v.after_submit(job).queue =~= seq![job]);
    }
}

/// A job that ends, whether it returned or aborted, leaves its worker idle in
/// a pool of the same size that still accepts work, and that worker runs a
/// job submitted next. With nothing queued before, it runs that very job.
pub proof fn lemma_ended_job_contained<J>(v: PoolView<J>, w: nat, job: J)
    requires
        v.wf(),
        !v.closed,
        v.has_worker(w),
        v.workers[w as int] == WorkerState::Busy,
    ensures
        v.after_finish(w).wf(),
        v.after_finish(w).workers.len() == v.workers.len(),
        v.after_finish(w).workers[w as int] == WorkerState::Idle,
        v.after_finish(w).submit_result(job) is Ok,
        v.after_finish(w).after_submit(job).claim_result() is Run,
        v.queue.len() == 0 ==> v.after_finish(w).after_submit(job).claim_result() == Claim::Run(job),
{
    lemma_operations_keep_wf(v, job, w);
    let u = v.after_finish(w);
    if v.queue.len() == 0 {
        assert(u.after_submit(job).queue =~= seq![job]);
    }
}

} // verus!
