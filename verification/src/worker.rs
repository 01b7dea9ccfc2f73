//! One worker of the pool: it claims a path from the shared queue, has the
//! encoder invoked on it outside the queue's lock, and repeats until it finds
//! the queue empty.

use vstd::prelude::*;
use crate::encoder::CompressionOutcome;
use crate::queue::WorkQueue;

verus! {

/// Where a worker stands.
pub enum WorkerView {
    /// Ready to claim the next path.
    Running,
    /// Holds this path, with the encoder at work on it.
    Invoking(Seq<char>),
    /// Found the queue empty and left its loop.
    Terminated,
}

/// The worker's state after it looked at a queue that held `pending`.
pub open spec fn worker_after_claim(pending: Seq<Seq<char>>) -> WorkerView {
    if pending.len() > 0 {
        WorkerView::Invoking(pending.last())
    } else {
        WorkerView::Terminated
    }
}

/// What is left of a queue that held `pending` after one claim.
pub open spec fn pending_after_claim(pending: Seq<Seq<char>>) -> Seq<Seq<char>> {
    if pending.len() > 0 {
        pending.drop_last()
    } else {
        pending
    }
}

/// What the host does next for a worker.
#[derive(Debug)]
pub enum Action {
    /// Invoke the encoder on this path, then report the outcome.
    Invoke(String),
    /// The worker is done.
    Exit,
}

/// A path together with the outcome of the encoder invocation on it.
#[derive(Debug)]
pub struct PathOutcome {
    pub path: String,
    pub outcome: CompressionOutcome,
}

enum State {
    Running,
    Invoking(String),
    Terminated,
}

/// A worker of the pool. It starts out running and is driven by its host:
/// `claim` while the host holds the queue, `complete` when the encoder has
/// returned, until `claim` answers `Exit`.
pub struct Worker {
    state: State,
}

impl View for Worker {
    type V = WorkerView;

    closed spec fn view(&self) -> WorkerView {
        match self.state {
            State::Running => WorkerView::Running,
            State::Invoking(path) => WorkerView::Invoking(path@),
            State::Terminated => WorkerView::Terminated,
        }
    }
}

impl Worker {
    /// A worker that is ready to claim.
    pub fn new() -> (worker: Worker)
        ensures
            worker@ == WorkerView::Running,
    {
        Worker { state: State::Running }
    }

    pub fn is_running(&self) -> (running: bool)
        ensures
            running == (self@ is Running),
    {
        match self.state {
            State::Running => true,
            _ => false,
        }
    }

    pub fn is_invoking(&self) -> (invoking: bool)
        ensures
            invoking == (self@ is Invoking),
    {
        match self.state {
            State::Invoking(_) => true,
            _ => false,
        }
    }

    pub fn is_terminated(&self) -> (terminated: bool)
        ensures
            terminated == (self@ is Terminated),
    {
        match self.state {
            State::Terminated => true,
            _ => false,
        }
    }

    /// The step a running worker takes while it holds the queue: it claims the
    /// last pending path, or terminates on an empty queue. The encoder is
    /// invoked after this call has returned and the queue has been released.
    pub fn claim(&mut self, queue: &mut WorkQueue) -> (action: Action)
        requires
            old(self)@ is Running,
        ensures
            final(self)@ == worker_after_claim(old(queue)@),
            final(queue)@ == pending_after_claim(old(queue)@),
            old(queue)@.len() > 0 ==> action is Invoke && action->Invoke_0@ == old(queue)@.last(),
            old(queue)@.len() == 0 ==> action is Exit,
    {
        match queue.claim() {
            Some(path) => {
                self.state = State::Invoking(path.clone());
                Action::Invoke(path)
            },
            None => {
                self.state = State::Terminated;
                Action::Exit
            },
        }
    }

    /// The step a worker takes when the encoder has returned: it pairs the
    /// outcome with the path it held and is ready to claim again. A failure is
    /// recorded like a success; the path is not tried again.
    pub fn complete(&mut self, outcome: CompressionOutcome) -> (record: PathOutcome)
        requires
            old(self)@ is Invoking,
        ensures
            final(self)@ == WorkerView::Running,
            record.path@ == old(self)@->Invoking_0,
            record.outcome == outcome,
    {
        let path = match &self.state {
            State::Invoking(path) => path.clone(),
            _ => String::new(),
        };
        self.state = State::Running;
        PathOutcome { path, outcome }
    }
}

} // verus!
