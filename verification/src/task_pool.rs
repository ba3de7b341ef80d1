//! The file task pool: a queue of discovered video files, a fixed set of
//! workers, and a result set of completed stream descriptors.
//!
//! This is the pool's shared state under its one lock; the workers
//! themselves run outside the library and drive it through
//! [`FileTaskPool::worker_pop`], [`FileTaskPool::worker_complete`] and
//! [`FileTaskPool::worker_fail`], while producers call
//! [`FileTaskPool::enqueue`] and the consumer calls
//! [`FileTaskPool::poll_result`]. Each method is one atomic transition, so
//! every path is popped by exactly one worker and every completed
//! descriptor is handed to exactly one caller.

use vstd::prelude::*;

verus! {

/// Milliseconds an idle worker sleeps before re-checking the queue.
pub const WORKER_BACKOFF_MS: u64 = 500;

/// What one worker is doing.
#[derive(Clone, Copy, PartialEq, Eq, Debug)]
pub enum WorkerState {
    /// Waiting for work.
    Idle,
    /// Holds a popped path and is opening it.
    Busy,
    /// Terminated permanently after an open failure. The worker popped a
    /// path it never completed, so it still counts as running work in
    /// flight: its running flag stays frozen.
    Dead,
}

/// A discovered video file: its resolved path and its creation time in
/// seconds since the epoch.
pub struct DiscoveredFile {
    pub path: String,
    pub created: u64,
}

/// Whether a worker in state `w` counts as running a task.
pub open spec fn counts_as_running(w: WorkerState) -> bool {
    w is Busy || w is Dead
}

/// The paths of `files` whose creation time is at or after `cutoff`, in
/// their given order.
pub open spec fn discovered_since(files: Seq<DiscoveredFile>, cutoff: u64) -> Seq<String>
    decreases files.len(),
{
    if files.len() == 0 {
        Seq::empty()
    } else if files.last().created >= cutoff {
        discovered_since(files.drop_last(), cutoff) + seq![files.last().path]
    } else {
        discovered_since(files.drop_last(), cutoff)
    }
}

/// Shared state of the pool: the path queue, the result set and the
/// per-worker flags. `D` is the completed stream descriptor type; the pool
/// never looks inside it.
pub struct FileTaskPool<D> {
    queue: Vec<String>,
    results: Vec<D>,
    workers: Vec<WorkerState>,
}

impl<D> FileTaskPool<D> {
    /// The queued paths, oldest first; workers pop from the back, so
    /// pickup order is last-in-first-out.
    pub closed spec fn spec_queue(self) -> Seq<String> {
        self.queue@
    }

    /// The completed descriptors not yet handed out, in completion order.
    pub closed spec fn spec_results(self) -> Seq<D> {
        self.results@
    }

    /// The per-worker states.
    pub closed spec fn spec_workers(self) -> Seq<WorkerState> {
        self.workers@
    }

    /// Some worker holds work it has not completed.
    pub open spec fn some_worker_running(self) -> bool {
        exists|i: int|
            0 <= i < self.spec_workers().len() && counts_as_running(#[trigger] self.spec_workers()[i])
    }

    /// Whether a caller that found no ready result may still expect one:
    /// a path is queued, or a worker is running.
    pub open spec fn spec_pending(self) -> bool {
        self.spec_queue().len() > 0 || self.some_worker_running()
    }

    /// A pool with `workers` idle workers and nothing queued or completed.
    pub fn new(workers: usize) -> (p: FileTaskPool<D>)
        requires
            workers > 0,
        ensures
            p.spec_queue() == Seq::<String>::empty(),
            p.spec_results() == Seq::<D>::empty(),
            p.spec_workers().len() == workers,
            forall|i: int| 0 <= i < workers ==> #[trigger] p.spec_workers()[i] is Idle,
    {
        let mut ws: Vec<WorkerState> = Vec::new();
        let mut i: usize = 0;
        while i < workers
            invariant
                0 <= i <= workers,
                ws@.len() == i,
                forall|j: int| 0 <= j < i ==> #[trigger] ws@[j] is Idle,
            decreases workers - i,
        {
            ws.push(WorkerState::Idle);
            i += 1;
        }
        FileTaskPool { queue: Vec::new(), results: Vec::new(), workers: ws }
    }

    /// Append one path to the queue. Duplicates are accepted and will be
    /// processed once per occurrence.
    pub fn enqueue(&mut self, path: String)
        ensures
            final(self).spec_queue() == old(self).spec_queue().push(path),
            final(self).spec_results() == old(self).spec_results(),
            final(self).spec_workers() == old(self).spec_workers(),
    {
        self.queue.push(path);
    }

    /// Append every file of `files` created at or after `cutoff` to the
    /// queue, keeping their order.
    pub fn enqueue_discovered_since(&mut self, files: &Vec<DiscoveredFile>, cutoff: u64)
        ensures
            final(self).spec_queue() == old(self).spec_queue() + discovered_since(
                files@,
                cutoff,
            ),
            final(self).spec_results() == old(self).spec_results(),
            final(self).spec_workers() == old(self).spec_workers(),
    {
        let ghost initial = self.spec_queue();
        let mut i: usize = 0;
        while i < files.len()
            invariant
                0 <= i <= files@.len(),
                self.spec_queue() == initial + discovered_since(files@.take(i as int), cutoff),
                self.spec_results() == old(self).spec_results(),
                self.spec_workers() == old(self).spec_workers(),
            decreases files@.len() - i,
        {
            if files[i].created >= cutoff {
                self.queue.push(files[i].path.clone());
            }
            proof {
                let taken = files@.take(i + 1);
                assert(taken.drop_last() =~= files@.take(i as int));
                assert(taken.last() == files@[i as int]);
                assert(self.spec_queue() =~= initial + discovered_since(taken, cutoff));
            }
            i += 1;
        }
        proof {
            assert(files@.take(files@.len() as int) =~= files@);
        }
    }

    /// One idle worker tries to take work: the most recently queued path is
    /// popped — under the pool's lock, so no other worker ever sees it —
    /// and the worker becomes busy; an empty queue changes nothing.
    pub fn worker_pop(&mut self, id: usize) -> (r: Option<String>)
        requires
            id < old(self).spec_workers().len(),
            old(self).spec_workers()[id as int] is Idle,
        ensures
            old(self).spec_queue().len() == 0 ==> r is None && final(self).spec_queue() == old(
                self,
            ).spec_queue() && final(self).spec_workers() == old(self).spec_workers(),
            old(self).spec_queue().len() > 0 ==> r == Some(old(self).spec_queue().last())
                && final(self).spec_queue() == old(self).spec_queue().drop_last()
                && final(self).spec_workers() == old(self).spec_workers().update(
                id as int,
                WorkerState::Busy,
            ),
            final(self).spec_results() == old(self).spec_results(),
    {
        match self.queue.pop() {
            Some(path) => {
                self.workers.set(id, WorkerState::Busy);
                Some(path)
            },
            None => None,
        }
    }

    /// A busy worker publishes the completed descriptor for the path it
    /// popped and becomes idle again.
    pub fn worker_complete(&mut self, id: usize, descriptor: D)
        requires
            id < old(self).spec_workers().len(),
            old(self).spec_workers()[id as int] is Busy,
        ensures
            final(self).spec_results() == old(self).spec_results().push(descriptor),
            final(self).spec_workers() == old(self).spec_workers().update(
                id as int,
                WorkerState::Idle,
            ),
            final(self).spec_queue() == old(self).spec_queue(),
    {
        self.results.push(descriptor);
        self.workers.set(id, WorkerState::Idle);
    }

    /// A busy worker failed to open its path and terminates permanently;
    /// the other workers keep draining the queue.
    pub fn worker_fail(&mut self, id: usize)
        requires
            id < old(self).spec_workers().len(),
            old(self).spec_workers()[id as int] is Busy,
        ensures
            final(self).spec_workers() == old(self).spec_workers().update(
                id as int,
                WorkerState::Dead,
            ),
            final(self).spec_queue() == old(self).spec_queue(),
            final(self).spec_results() == old(self).spec_results(),
    {
        self.workers.set(id, WorkerState::Dead);
    }

    /// Whether any worker currently counts as running a task.
    pub fn tasks_running(&self) -> (r: bool)
        ensures
            r == self.some_worker_running(),
    {
        let mut i: usize = 0;
        while i < self.workers.len()
            invariant
                0 <= i <= self.spec_workers().len(),
                forall|j: int|
                    0 <= j < i ==> !counts_as_running(#[trigger] self.spec_workers()[j]),
            decreases self.spec_workers().len() - i,
        {
            match self.workers[i] {
                WorkerState::Idle => {},
                WorkerState::Busy => {
                    return true;
                },
                WorkerState::Dead => {
                    return true;
                },
            }
            i += 1;
        }
        false
    }

    /// Pop one completed descriptor, if any is ready; popping removes it,
    /// so a descriptor is delivered to at most one caller.
    ///
    /// The first component answers "may I still expect something?": it is
    /// `false` exactly when nothing is ready, nothing is queued and no
    /// worker is running — only then will nothing ever arrive.
    pub fn poll_result(&mut self) -> (r: (bool, Option<D>))
        ensures
            final(self).spec_queue() == old(self).spec_queue(),
            final(self).spec_workers() == old(self).spec_workers(),
            old(self).spec_results().len() > 0 ==> r.0 && r.1 == Some(
                old(self).spec_results().last(),
            ) && final(self).spec_results() == old(self).spec_results().drop_last(),
            old(self).spec_results().len() == 0 ==> r.1 is None && final(self).spec_results()
                == old(self).spec_results() && r.0 == old(self).spec_pending(),
            !r.0 <==> (old(self).spec_results().len() == 0 && old(self).spec_queue().len() == 0
                && !old(self).some_worker_running()),
    {
        let queue_nonempty = self.queue.len() > 0;
        match self.results.pop() {
            Some(descriptor) => (true, Some(descriptor)),
            None => {
                if queue_nonempty || self.tasks_running() {
                    (true, None)
                } else {
                    (false, None)
                }
            },
        }
    }

    /// Number of paths waiting in the queue.
    pub fn queue_len(&self) -> (n: usize)
        ensures
            n == self.spec_queue().len(),
    {
        self.queue.len()
    }

    /// Number of completed descriptors not yet handed out.
    pub fn results_len(&self) -> (n: usize)
        ensures
            n == self.spec_results().len(),
    {
        self.results.len()
    }

    /// Number of workers the pool was created with.
    pub fn worker_count(&self) -> (n: usize)
        ensures
            n == self.spec_workers().len(),
    {
        self.workers.len()
    }
}

/// Law: popping from the result set is destructive. The descriptor a poll
/// returns is the set's last one, and the set afterwards is exactly the
/// set without that occurrence, so two consecutive successful polls never
/// hand out the same occurrence of a descriptor twice.
pub proof fn lemma_poll_result_destructive<D>(results: Seq<D>)
    requires
        results.len() > 0,
    ensures
        ({
            let popped = results.last();
            let rest = results.drop_last();
            &&& rest.len() == results.len() - 1
            &&& rest.to_multiset().count(popped) == results.to_multiset().count(popped) - 1
        }),
{
    broadcast use vstd::seq_lib::group_to_multiset_ensures;

    let popped = results.last();
    let rest = results.drop_last();
    assert(results =~= rest.push(popped));
    assert(results.to_multiset() =~= rest.to_multiset().insert(popped));
}

} // verus!
