//! The work queue: the pending image paths, each handed out once.

use vstd::prelude::*;

verus! {

/// The pending paths of one run. Filled once, when it is made, and only ever
/// shortened afterwards: an entry that was handed out never comes back.
pub struct WorkQueue {
    entries: Vec<String>,
}

impl View for WorkQueue {
    type V = Seq<Seq<char>>;

    /// The pending paths, in the order in which they were enqueued.
    closed spec fn view(&self) -> Seq<Seq<char>> {
        self.entries.deep_view()
    }
}

impl WorkQueue {
    /// A queue that holds `paths`, all pending.
    pub fn new(paths: Vec<String>) -> (queue: WorkQueue)
        ensures
            queue@ == paths.deep_view(),
    {
        WorkQueue { entries: paths }
    }

    /// The number of pending paths.
    pub fn len(&self) -> (n: usize)
        ensures
            n == self@.len(),
    {
        self.entries.len()
    }

    pub fn is_empty(&self) -> (empty: bool)
        ensures
            empty == (self@.len() == 0),
    {
        self.entries.len() == 0
    }

    /// Hands out the path that was enqueued last and takes it off the queue, or
    /// reports that nothing is pending. The caller holds exclusive access to
    /// the queue for no longer than this call.
    pub fn claim(&mut self) -> (claimed: Option<String>)
        ensures
            old(self)@.len() > 0 ==> claimed is Some && claimed->0@ == old(self)@.last()
                && final(self)@ == old(self)@.drop_last(),
            old(self)@.len() == 0 ==> claimed is None && final(self)@ == old(self)@,
    {
        self.entries.pop()
    }
}

} // verus!
