//! The pool at work: an executor that drains a queue with a given number of
//! workers, and the number of workers that suits this machine.

use vstd::prelude::*;
use crate::encoder::CompressionOutcome;
use crate::model::{
    lemma_quiescent_pool_is_drained, lemma_run_keeps_invariant, pool_run, pool_start, pool_step,
    quiescent,
};
use crate::queue::WorkQueue;
use crate::worker::{Action, PathOutcome, Worker, WorkerView};

verus! {

/// Whether the encoder may be invoked on every string that spells `path`.
pub open spec fn accepts<F: Fn(&String) -> CompressionOutcome>(encode_fn: &F, path: Seq<char>)
    -> bool {
    forall|p: String| p@ == path ==> #[trigger] call_requires(encode_fn, (&p,))
}

/// Whether `outcome` is one that the encoder can return for a string that
/// spells `path`.
pub open spec fn may_return<F: Fn(&String) -> CompressionOutcome>(
    encode_fn: &F,
    path: Seq<char>,
    outcome: CompressionOutcome,
) -> bool {
    exists|p: String| p@ == path && #[trigger] call_ensures(encode_fn, (&p,), outcome)
}

/// Drains `queue` with `n_workers` workers that take turns. In each round
/// every running worker claims one path while it alone holds the queue; then,
/// with the queue released, the encoder is invoked on the claimed paths, one
/// after the other. A worker that finds the queue empty terminates, and the
/// call returns when all have. A failed invocation is recorded and stops
/// nothing.
///
/// The report lists every path of the queue once, in the order of the
/// invocations, which is the entry enqueued last first; the number of workers
/// shows in neither.
pub fn drain<F: Fn(&String) -> CompressionOutcome>(
    queue: &mut WorkQueue,
    n_workers: usize,
    encode_fn: &F,
) -> (report: Vec<PathOutcome>)
    requires
        n_workers > 0 || old(queue)@.len() == 0,
        forall|i: int| 0 <= i < old(queue)@.len() ==> accepts(encode_fn, #[trigger] old(queue)@[i]),
    ensures
        final(queue)@.len() == 0,
        report@.len() == old(queue)@.len(),
        forall|i: int|
            0 <= i < report@.len() ==> (#[trigger] report@[i]).path@ == old(queue)@[old(
                queue,
            )@.len() - 1 - i],
        forall|i: int|
            0 <= i < report@.len() ==> may_return(
                encode_fn,
                report@[i].path@,
                (#[trigger] report@[i]).outcome,
            ),
        exists|schedule: Seq<int>|
            {
                let end = #[trigger] pool_run(
                    pool_start(old(queue)@, n_workers as nat),
                    schedule,
                );
                &&& quiescent(end)
                &&& end.pending == final(queue)@
                &&& end.invoked == Seq::new(report@.len(), |i: int| report@[i].path@)
            },
{
    let ghost paths = queue@;
    let ghost start = pool_start(paths, n_workers as nat);
    let mut workers: Vec<Worker> = Vec::new();
    let mut k: usize = 0;
    while k < n_workers
        invariant
            k <= n_workers,
            workers@.len() == k,
            forall|w: int| 0 <= w < k ==> (#[trigger] workers@[w])@ is Running,
        decreases n_workers - k,
    {
        workers.push(Worker::new());
        k += 1;
    }
    // `pool` is the model's state after the steps taken so far, which
    // `schedule` lists.
    let ghost mut schedule: Seq<int> = Seq::empty();
    let ghost mut pool = start;
    let mut report: Vec<PathOutcome> = Vec::new();
    let mut live: usize = n_workers;
    while live > 0
        invariant
            paths == old(queue)@,
            start == pool_start(paths, n_workers as nat),
            forall|i: int| 0 <= i < paths.len() ==> accepts(encode_fn, #[trigger] paths[i]),
            pool == pool_run(start, schedule),
            pool.pending == queue@,
            workers@.len() == n_workers,
            pool.workers.len() == n_workers,
            forall|w: int| 0 <= w < n_workers ==> (#[trigger] workers@[w])@ == pool.workers[w],
            live <= n_workers,
            forall|w: int| 0 <= w < live ==> (#[trigger] workers@[w])@ is Running,
            forall|w: int| live <= w < n_workers ==> (#[trigger] workers@[w])@ is Terminated,
            report@.len() == pool.invoked.len(),
            forall|j: int| 0 <= j < report@.len() ==> (#[trigger] report@[j]).path@ == pool.invoked[j],
            forall|j: int|
                0 <= j < report@.len() ==> may_return(
                    encode_fn,
                    report@[j].path@,
                    (#[trigger] report@[j]).outcome,
                ),
        decreases queue@.len() + live,
    {
        let ghost base = report@.len() as int;
        let ghost before = queue@.len();
        // Each running worker claims in turn; `batch` holds the claimed paths.
        let mut batch: Vec<String> = Vec::new();
        let mut i: usize = 0;
        while i < live
            invariant
                start == pool_start(paths, n_workers as nat),
                pool == pool_run(start, schedule),
                pool.pending == queue@,
                workers@.len() == n_workers,
                pool.workers.len() == n_workers,
                forall|w: int| 0 <= w < n_workers ==> (#[trigger] workers@[w])@ == pool.workers[w],
                i <= live <= n_workers,
                batch@.len() <= i,
                batch@.len() < i ==> queue@.len() == 0,
                queue@.len() + batch@.len() == before,
                pool.invoked.len() == base + batch@.len(),
                forall|w: int|
                    0 <= w < batch@.len() ==> (#[trigger] workers@[w])@ == WorkerView::Invoking(
                        pool.invoked[base + w],
                    ),
                forall|w: int|
                    0 <= w < batch@.len() ==> (#[trigger] batch@[w])@ == pool.invoked[base + w],
                forall|w: int| batch@.len() <= w < i ==> (#[trigger] workers@[w])@ is Terminated,
                forall|w: int| i <= w < live ==> (#[trigger] workers@[w])@ is Running,
                forall|w: int| live <= w < n_workers ==> (#[trigger] workers@[w])@ is Terminated,
                report@.len() == base,
                forall|j: int| 0 <= j < base ==> (#[trigger] report@[j]).path@ == pool.invoked[j],
            decreases live - i,
        {
            let ghost pool_before = pool;
            let ghost workers_before = workers@;
            let action = workers[i].claim(queue);
            proof {
                // The model takes the same step: worker `i` claims.
                assert(schedule.push(i as int).drop_last() =~= schedule);
                schedule = schedule.push(i as int);
                pool = pool_step(pool_before, i as int);
                assert(forall|w: int|
                    0 <= w < n_workers && w != i ==> workers@[w] == workers_before[w]);
            }
            match action {
                Action::Invoke(path) => {
                    batch.push(path);
                },
                Action::Exit => {},
            }
            i += 1;
        }
        let claimed: usize = batch.len();
        proof {
            lemma_run_keeps_invariant(paths, n_workers as nat, schedule);
        }
        // The queue is released: the encoder runs on each claimed path.
        let mut j: usize = 0;
        while j < claimed
            invariant
                start == pool_start(paths, n_workers as nat),
                pool == pool_run(start, schedule),
                pool.pending == queue@,
                workers@.len() == n_workers,
                pool.workers.len() == n_workers,
                forall|w: int| 0 <= w < n_workers ==> (#[trigger] workers@[w])@ == pool.workers[w],
                j <= claimed == batch@.len(),
                claimed <= live <= n_workers,
                pool.invoked.len() == base + claimed,
                pool.invoked.len() <= paths.len(),
                forall|x: int|
                    0 <= x < pool.invoked.len() ==> #[trigger] pool.invoked[x] == paths[paths.len()
                        - 1 - x],
                forall|i: int| 0 <= i < paths.len() ==> accepts(encode_fn, #[trigger] paths[i]),
                forall|w: int| 0 <= w < j ==> (#[trigger] workers@[w])@ is Running,
                forall|w: int|
                    j <= w < claimed ==> (#[trigger] workers@[w])@ == WorkerView::Invoking(
                        pool.invoked[base + w],
                    ),
                forall|w: int|
                    0 <= w < claimed ==> (#[trigger] batch@[w])@ == pool.invoked[base + w],
                forall|w: int| claimed <= w < n_workers ==> (#[trigger] workers@[w])@ is Terminated,
                report@.len() == base + j,
                forall|x: int|
                    0 <= x < report@.len() ==> (#[trigger] report@[x]).path@ == pool.invoked[x],
                forall|x: int|
                    0 <= x < report@.len() ==> may_return(
                        encode_fn,
                        report@[x].path@,
                        (#[trigger] report@[x]).outcome,
                    ),
            decreases claimed - j,
        {
            let ghost pool_before = pool;
            let ghost workers_before = workers@;
            let outcome = encode_fn(&batch[j]);
            let record = workers[j].complete(outcome);
            proof {
                // The model takes the same step: the encoder of worker `j` returns.
                assert(schedule.push(j as int).drop_last() =~= schedule);
                schedule = schedule.push(j as int);
                pool = pool_step(pool_before, j as int);
                assert(forall|w: int|
                    0 <= w < n_workers && w != j ==> workers@[w] == workers_before[w]);
            }
            report.push(record);
            j += 1;
        }
        proof {
            // A worker that went without a path has terminated, so the queue is empty.
            lemma_run_keeps_invariant(paths, n_workers as nat, schedule);
            if claimed < n_workers {
                assert(workers@[claimed as int]@ is Terminated);
            }
        }
        live = claimed;
    }
    proof {
        lemma_run_keeps_invariant(paths, n_workers as nat, schedule);
        assert(quiescent(pool)) by {
            assert forall|w: int| 0 <= w < pool.workers.len() implies pool.workers[w] is Terminated by {
                assert(workers@[w]@ is Terminated);
            }
        }
        if n_workers > 0 {
            lemma_quiescent_pool_is_drained(paths, n_workers as nat, schedule);
        }
    }
    report
}

/// Calls `num_cpus::get_physical`, the number of physical cores of the
/// machine. Nothing is proved of it: the contract repeats what the crate's
/// documentation promises of every call, that the count is at least 1.
#[verifier::external_body]
fn physical_core_count() -> (cores: usize)
    ensures
        cores >= 1,
{
    num_cpus::get_physical()
}

/// The number of workers of a pool on this machine: one per physical core,
/// since each encoder process keeps one core busy.
pub fn worker_count() -> (n_workers: usize)
    ensures
        n_workers >= 1,
{
    physical_core_count()
}

/// Drains `queue` with one worker per physical core of this machine. What
/// comes back does not depend on that number.
pub fn drain_on_physical_cores<F: Fn(&String) -> CompressionOutcome>(
    queue: &mut WorkQueue,
    encode_fn: &F,
) -> (report: Vec<PathOutcome>)
    requires
        forall|i: int| 0 <= i < old(queue)@.len() ==> accepts(encode_fn, #[trigger] old(queue)@[i]),
    ensures
        final(queue)@.len() == 0,
        report@.len() == old(queue)@.len(),
        forall|i: int|
            0 <= i < report@.len() ==> (#[trigger] report@[i]).path@ == old(queue)@[old(
                queue,
            )@.len() - 1 - i],
        forall|i: int|
            0 <= i < report@.len() ==> may_return(
                encode_fn,
                report@[i].path@,
                (#[trigger] report@[i]).outcome,
            ),
{
    let n_workers = worker_count();
    drain(queue, n_workers, encode_fn)
}

} // verus!
