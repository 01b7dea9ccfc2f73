//! A model of the pool: the shared queue and the workers, stepping in any
//! order, and what holds of every state that they can reach.

use vstd::prelude::*;
use crate::worker::{pending_after_claim, worker_after_claim, WorkerView};

verus! {

/// The state of a pool: the shared queue, the workers, and the paths on which
/// the encoder has been invoked so far, in the order of the invocations.
pub struct PoolView {
    pub pending: Seq<Seq<char>>,
    pub workers: Seq<WorkerView>,
    pub invoked: Seq<Seq<char>>,
}

/// A pool of `n_workers` running workers over a queue that holds `paths`.
pub open spec fn pool_start(paths: Seq<Seq<char>>, n_workers: nat) -> PoolView {
    PoolView {
        pending: paths,
        workers: Seq::new(n_workers, |w: int| WorkerView::Running),
        invoked: Seq::empty(),
    }
}

/// The pool after worker `w` has taken its next step. A running worker claims
/// or terminates, an invoking worker sees its encoder return, a terminated
/// worker stays as it is.
pub open spec fn pool_step(pool: PoolView, w: int) -> PoolView {
    if 0 <= w < pool.workers.len() {
        match pool.workers[w] {
            WorkerView::Running => PoolView {
                pending: pending_after_claim(pool.pending),
                workers: pool.workers.update(w, worker_after_claim(pool.pending)),
                invoked: if pool.pending.len() > 0 {
                    pool.invoked.push(pool.pending.last())
                } else {
                    pool.invoked
                },
            },
            WorkerView::Invoking(_) => PoolView {
                workers: pool.workers.update(w, WorkerView::Running),
                ..pool
            },
            WorkerView::Terminated => pool,
        }
    } else {
        pool
    }
}

/// The pool after the workers have stepped in the order that `schedule` names.
pub open spec fn pool_run(pool: PoolView, schedule: Seq<int>) -> PoolView
    decreases schedule.len(),
{
    if schedule.len() == 0 {
        pool
    } else {
        pool_step(pool_run(pool, schedule.drop_last()), schedule.last())
    }
}

/// Every worker has terminated.
pub open spec fn quiescent(pool: PoolView) -> bool {
    forall|w: int| 0 <= w < pool.workers.len() ==> pool.workers[w] is Terminated
}

/// The pool accounts for `paths`: what is pending is a front part of `paths`,
/// and the invocations so far are the rest of it, last path first.
pub open spec fn accounts_for(pool: PoolView, paths: Seq<Seq<char>>) -> bool {
    &&& pool.pending.len() + pool.invoked.len() == paths.len()
    &&& pool.pending == paths.take(pool.pending.len() as int)
    &&& forall|j: int|
        0 <= j < pool.invoked.len() ==> #[trigger] pool.invoked[j] == paths[paths.len() - 1 - j]
}

/// A worker that holds a path holds one on which the encoder was invoked.
pub open spec fn claims_invoked(pool: PoolView) -> bool {
    forall|w: int|
        0 <= w < pool.workers.len() && (#[trigger] pool.workers[w]) is Invoking
            ==> pool.invoked.contains(pool.workers[w]->Invoking_0)
}

/// Once a worker has terminated the queue is empty.
pub open spec fn terminated_saw_empty(pool: PoolView) -> bool {
    forall|w: int|
        0 <= w < pool.workers.len() && (#[trigger] pool.workers[w]) is Terminated
            ==> pool.pending.len() == 0
}

/// What holds of a pool over `paths` in every state that it can reach.
pub open spec fn pool_invariant(pool: PoolView, paths: Seq<Seq<char>>) -> bool {
    &&& accounts_for(pool, paths)
    &&& claims_invoked(pool)
    &&& terminated_saw_empty(pool)
}

/// The paths among `invoked` on which the encoder succeeds, for an encoder
/// whose verdict depends on the path alone.
pub open spec fn recompressed(invoked: Seq<Seq<char>>, succeeds: spec_fn(Seq<char>) -> bool)
    -> Set<Seq<char>> {
    Set::new(|path: Seq<char>| invoked.contains(path) && succeeds(path))
}

/// The queue only ever shrinks, and from its end: whatever steps are taken from
/// whatever state, what is pending afterwards is a front part of what was
/// pending before. No entry comes back.
pub proof fn lemma_queue_only_shrinks(pool: PoolView, schedule: Seq<int>)
    ensures
        pool_run(pool, schedule).pending.len() <= pool.pending.len(),
        pool_run(pool, schedule).pending == pool.pending.take(
            pool_run(pool, schedule).pending.len() as int,
        ),
        pool_run(pool, schedule).workers.len() == pool.workers.len(),
    decreases schedule.len(),
{
    if schedule.len() > 0 {
        lemma_queue_only_shrinks(pool, schedule.drop_last());
    }
}

/// A worker that has terminated stays terminated, whatever steps follow.
pub proof fn lemma_terminated_is_final(pool: PoolView, schedule: Seq<int>, w: int)
    requires
        0 <= w < pool.workers.len(),
        pool.workers[w] is Terminated,
    ensures
        pool_run(pool, schedule).workers.len() == pool.workers.len(),
        pool_run(pool, schedule).workers[w] is Terminated,
    decreases schedule.len(),
{
    if schedule.len() > 0 {
        lemma_terminated_is_final(pool, schedule.drop_last(), w);
    }
}

/// One step of any worker keeps the invariant.
pub proof fn lemma_step_keeps_invariant(pool: PoolView, paths: Seq<Seq<char>>, w: int)
    requires
        pool_invariant(pool, paths),
    ensures
        pool_invariant(pool_step(pool, w), paths),
        pool_step(pool, w).workers.len() == pool.workers.len(),
{
    let next = pool_step(pool, w);
    if 0 <= w < pool.workers.len() && pool.workers[w] is Running && pool.pending.len() > 0 {
        assert(next.pending =~= paths.take(next.pending.len() as int));
        assert forall|v: int|
            0 <= v < next.workers.len() && (#[trigger] next.workers[v]) is Invoking implies next.invoked.contains(
            next.workers[v]->Invoking_0,
        ) by {
            if v == w {
                assert(next.invoked[pool.invoked.len() as int] == pool.pending.last());
            } else {
                let j = choose|j: int|
                    0 <= j < pool.invoked.len() && pool.invoked[j] == pool.workers[v]->Invoking_0;
                assert(next.invoked[j] == pool.invoked[j]);
            }
        }
    }
}

/// Whatever the number of workers and whatever the order of their steps, the
/// pool accounts for the paths it was started with: the encoder is never
/// invoked on more paths than were enqueued, nor twice for one entry, and no
/// entry is lost.
pub proof fn lemma_run_keeps_invariant(paths: Seq<Seq<char>>, n_workers: nat, schedule: Seq<int>)
    ensures
        pool_invariant(pool_run(pool_start(paths, n_workers), schedule), paths),
        pool_run(pool_start(paths, n_workers), schedule).workers.len() == n_workers,
        pool_run(pool_start(paths, n_workers), schedule).invoked.len() <= paths.len(),
    decreases schedule.len(),
{
    let start = pool_start(paths, n_workers);
    if schedule.len() == 0 {
        assert(start.pending =~= paths.take(paths.len() as int));
    } else {
        lemma_run_keeps_invariant(paths, n_workers, schedule.drop_last());
        lemma_step_keeps_invariant(pool_run(start, schedule.drop_last()), paths, schedule.last());
    }
}

/// When all workers of a pool of at least one have terminated, the queue is
/// empty and the encoder was invoked on every enqueued path once: as many
/// invocations as entries, the entry enqueued last first.
pub proof fn lemma_quiescent_pool_is_drained(
    paths: Seq<Seq<char>>,
    n_workers: nat,
    schedule: Seq<int>,
)
    requires
        n_workers > 0,
        quiescent(pool_run(pool_start(paths, n_workers), schedule)),
    ensures
        pool_run(pool_start(paths, n_workers), schedule).pending.len() == 0,
        pool_run(pool_start(paths, n_workers), schedule).invoked.len() == paths.len(),
        pool_run(pool_start(paths, n_workers), schedule).invoked == paths.reverse(),
{
    let end = pool_run(pool_start(paths, n_workers), schedule);
    lemma_run_keeps_invariant(paths, n_workers, schedule);
    assert(end.workers[0] is Terminated);
}

/// Two pools over the same paths that have both run to the end, with any
/// numbers of workers and in any orders, have invoked the encoder on the same
/// paths; with an encoder whose verdict depends on the path alone, the same
/// files come out recompressed.
pub proof fn lemma_worker_count_is_unobservable(
    paths: Seq<Seq<char>>,
    n_first: nat,
    first: Seq<int>,
    n_second: nat,
    second: Seq<int>,
    succeeds: spec_fn(Seq<char>) -> bool,
)
    requires
        n_first > 0,
        n_second > 0,
        quiescent(pool_run(pool_start(paths, n_first), first)),
        quiescent(pool_run(pool_start(paths, n_second), second)),
    ensures
        pool_run(pool_start(paths, n_first), first).invoked == pool_run(
            pool_start(paths, n_second),
            second,
        ).invoked,
        recompressed(pool_run(pool_start(paths, n_first), first).invoked, succeeds)
            == recompressed(pool_run(pool_start(paths, n_second), second).invoked, succeeds),
        recompressed(pool_run(pool_start(paths, n_first), first).invoked, succeeds)
            == recompressed(paths, succeeds),
{
    lemma_quiescent_pool_is_drained(paths, n_first, first);
    lemma_quiescent_pool_is_drained(paths, n_second, second);
    let invoked = paths.reverse();
    assert forall|path: Seq<char>| invoked.contains(path) <==> paths.contains(path) by {
        if paths.contains(path) {
            let j = choose|j: int| 0 <= j < paths.len() && paths[j] == path;
            assert(invoked[paths.len() - 1 - j] == path);
        }
    }
}

} // verus!
