//! Background (deferred) tasks and their exact accounting.
//!
//! Every piece of background work spawned during a phase is tracked by a
//! [`DeferredTask`] coordinator: spawning increments the outstanding
//! counter, finishing decrements it, and the phase barrier releases only
//! once the counter has returned to zero.  The accounting is exact: one
//! increment and one decrement per spawn, nested spawns included, whether
//! or not the work itself produced anything.
//!
//! Background work never touches the shared state.  It receives a
//! [`DeferredScope`], through which it can hand over command queues and
//! spawn further tracked work.

use vstd::prelude::*;

use crate::command::CommandQueue;

verus! {

/// One spawned unit of background work, waiting to be executed.
pub struct PendingTask<D> {
    /// The work itself.
    pub work: D,
    /// True when the work must run on the driving thread rather than on
    /// the I/O pool.
    pub pinned: bool,
}

/// Background work spawned during a phase.
///
/// The work runs exactly once, consuming itself.  It mutates nothing
/// directly: any commands it wants applied, and any nested work it wants
/// tracked, go through the scope it is handed.
pub trait DeferredWork<C>: Sized {
    /// Performs the work, recording commands and nested spawns in `scope`.
    fn run(self, scope: &mut DeferredScope<C, Self>);
}

/// The capability handed to phase work and background tasks: enqueue
/// command queues for the next barrier, and spawn further tracked work.
///
/// A scope only records; the driver merges what was recorded into the
/// coordinator and the command stream once the caller returns.
pub struct DeferredScope<C, D> {
    sent: Vec<CommandQueue<C>>,
    spawned: Vec<PendingTask<D>>,
}

impl<C, D> DeferredScope<C, D> {
    /// The command queues handed over so far, oldest first.
    pub closed spec fn spec_sent(&self) -> Seq<CommandQueue<C>> {
        self.sent@
    }

    /// The work spawned so far, oldest first.
    pub closed spec fn spec_spawned(&self) -> Seq<PendingTask<D>> {
        self.spawned@
    }

    /// A scope with nothing recorded yet.
    pub fn new() -> (r: Self)
        ensures
            r.spec_sent() == Seq::<CommandQueue<C>>::empty(),
            r.spec_spawned() == Seq::<PendingTask<D>>::empty(),
    {
        DeferredScope { sent: Vec::new(), spawned: Vec::new() }
    }

    /// Hands over a queue of commands to be applied at the next barrier.
    pub fn send(&mut self, msg: CommandQueue<C>)
        ensures
            final(self).spec_sent() == old(self).spec_sent().push(msg),
            final(self).spec_spawned() == old(self).spec_spawned(),
    {
        self.sent.push(msg);
    }

    /// Spawns nested background work for the I/O pool; it joins the same
    /// outstanding total as every other deferred task.
    pub fn spawn(&mut self, work: D)
        ensures
            final(self).spec_spawned() == old(self).spec_spawned().push(
                (PendingTask { work, pinned: false }),
            ),
            final(self).spec_sent() == old(self).spec_sent(),
    {
        self.spawned.push(PendingTask { work, pinned: false });
    }

    /// Spawns nested background work that must stay on the driving
    /// thread; it is tracked exactly like [`DeferredScope::spawn`].
    pub fn spawn_local(&mut self, work: D)
        ensures
            final(self).spec_spawned() == old(self).spec_spawned().push(
                (PendingTask { work, pinned: true }),
            ),
            final(self).spec_sent() == old(self).spec_sent(),
    {
        self.spawned.push(PendingTask { work, pinned: true });
    }

    /// Surrenders the recorded queues and spawns to the driver.
    pub(crate) fn into_parts(self) -> (r: (Vec<CommandQueue<C>>, Vec<PendingTask<D>>))
        ensures
            r.0@ == self.spec_sent(),
            r.1@ == self.spec_spawned(),
    {
        let DeferredScope { sent, spawned } = self;
        (sent, spawned)
    }
}

/// The deferred-task coordinator: the outstanding counter, the queue of
/// spawned work not yet executed, and the running totals of spawns and
/// releases.
pub struct DeferredTask<D> {
    waiting: u64,
    pending: Vec<PendingTask<D>>,
    spawned_total: Ghost<nat>,
    completed_total: Ghost<nat>,
}

/// A witness that one deferred task has been taken off the queue and is
/// executing.  Releasing it is the only way to decrement the outstanding
/// counter, so each begun task is released exactly once.
pub struct DeferredGuard {
    _private: (),
}

impl<D> DeferredTask<D> {
    /// The outstanding counter: spawns not yet released.
    pub closed spec fn spec_waiting(&self) -> u64 {
        self.waiting
    }

    /// Spawned work not yet begun, oldest first.
    pub closed spec fn spec_pending(&self) -> Seq<PendingTask<D>> {
        self.pending@
    }

    /// How many spawns have ever been recorded.
    pub closed spec fn spec_spawned_total(&self) -> nat {
        self.spawned_total@
    }

    /// How many releases have ever been recorded.
    pub closed spec fn spec_completed_total(&self) -> nat {
        self.completed_total@
    }

    /// Tasks begun but not yet released.
    pub open spec fn in_flight(&self) -> int {
        self.spec_waiting() - self.spec_pending().len()
    }

    /// The accounting invariant: the outstanding counter covers exactly
    /// the pending and in-flight tasks, and every spawn ever recorded is
    /// either released or still outstanding.
    pub open spec fn wf(&self) -> bool {
        &&& self.spec_pending().len() <= self.spec_waiting()
        &&& self.spec_spawned_total() == self.spec_completed_total() + self.spec_waiting()
    }

    /// A coordinator with no task outstanding.
    pub fn new() -> (r: Self)
        ensures
            r.wf(),
            r.spec_waiting() == 0,
            r.spec_pending() == Seq::<PendingTask<D>>::empty(),
            r.spec_spawned_total() == 0,
            r.spec_completed_total() == 0,
    {
        DeferredTask {
            waiting: 0,
            pending: Vec::new(),
            spawned_total: Ghost(0),
            completed_total: Ghost(0),
        }
    }

    /// How many spawned tasks await execution.
    pub fn pending_count(&self) -> (r: usize)
        ensures
            r == self.spec_pending().len(),
    {
        self.pending.len()
    }

    /// Reads the outstanding counter.
    pub fn waiting(&self) -> (r: u64)
        ensures
            r == self.spec_waiting(),
    {
        self.waiting
    }

    /// Records one spawn: the counter goes up by one and the work joins
    /// the queue.  Refused only when the counter is at its maximum, in
    /// which case nothing changes.
    pub(crate) fn submit(&mut self, task: PendingTask<D>) -> (ok: bool)
        ensures
            ok == (old(self).spec_waiting() < u64::MAX),
            ok ==> final(self).spec_waiting() == old(self).spec_waiting() + 1
                && final(self).spec_pending() == old(self).spec_pending().push(task)
                && final(self).spec_spawned_total() == old(self).spec_spawned_total() + 1,
            !ok ==> *final(self) == *old(self),
            final(self).spec_completed_total() == old(self).spec_completed_total(),
            old(self).wf() ==> final(self).wf(),
    {
        if self.waiting < u64::MAX {
            self.waiting = self.waiting + 1;
            self.pending.push(task);
            proof {
                self.spawned_total@ = self.spawned_total@ + 1;
            }
            true
        } else {
            false
        }
    }

    /// Spawns background work for the I/O pool, tracked by the
    /// outstanding counter.
    pub fn scoped_task(&mut self, work: D) -> (ok: bool)
        ensures
            ok == (old(self).spec_waiting() < u64::MAX),
            ok ==> final(self).spec_waiting() == old(self).spec_waiting() + 1
                && final(self).spec_pending() == old(self).spec_pending().push(
                (PendingTask { work, pinned: false }),
            ) && final(self).spec_spawned_total() == old(self).spec_spawned_total() + 1,
            !ok ==> *final(self) == *old(self),
            final(self).spec_completed_total() == old(self).spec_completed_total(),
            old(self).wf() ==> final(self).wf(),
    {
        self.submit(PendingTask { work, pinned: false })
    }

    /// Spawns background work pinned to the driving thread, tracked by
    /// the outstanding counter exactly like pool work.
    pub fn scoped_task_local(&mut self, work: D) -> (ok: bool)
        ensures
            ok == (old(self).spec_waiting() < u64::MAX),
            ok ==> final(self).spec_waiting() == old(self).spec_waiting() + 1
                && final(self).spec_pending() == old(self).spec_pending().push(
                (PendingTask { work, pinned: true }),
            ) && final(self).spec_spawned_total() == old(self).spec_spawned_total() + 1,
            !ok ==> *final(self) == *old(self),
            final(self).spec_completed_total() == old(self).spec_completed_total(),
            old(self).wf() ==> final(self).wf(),
    {
        self.submit(PendingTask { work, pinned: true })
    }

    /// Takes the oldest pending task off the queue for execution.  The
    /// counter is untouched: the task is now in flight, and the returned
    /// guard must be released once it has run.
    pub(crate) fn begin_task(&mut self) -> (r: (PendingTask<D>, DeferredGuard))
        requires
            old(self).wf(),
            old(self).spec_pending().len() > 0,
        ensures
            final(self).wf(),
            r.0 == old(self).spec_pending()[0],
            final(self).spec_pending() == old(self).spec_pending().subrange(
                1,
                old(self).spec_pending().len() as int,
            ),
            final(self).spec_waiting() == old(self).spec_waiting(),
            final(self).spec_spawned_total() == old(self).spec_spawned_total(),
            final(self).spec_completed_total() == old(self).spec_completed_total(),
            final(self).in_flight() > 0,
    {
        let task = self.pending.remove(0);
        (task, DeferredGuard { _private: () })
    }
}

impl DeferredGuard {
    /// Releases one in-flight task: the outstanding counter goes down by
    /// one and the release is recorded.  Consuming the guard here is the
    /// guaranteed-cleanup step that matches the task's spawn.
    pub(crate) fn release<D>(self, task: &mut DeferredTask<D>)
        requires
            old(task).wf(),
            old(task).in_flight() > 0,
        ensures
            final(task).wf(),
            final(task).spec_waiting() == old(task).spec_waiting() - 1,
            final(task).spec_pending() == old(task).spec_pending(),
            final(task).spec_spawned_total() == old(task).spec_spawned_total(),
            final(task).spec_completed_total() == old(task).spec_completed_total() + 1,
    {
        task.waiting = task.waiting - 1;
        proof {
            task.completed_total@ = task.completed_total@ + 1;
        }
    }
}

/// Accounting conservation: whenever the outstanding counter has returned
/// to zero, the releases recorded match the spawns recorded exactly —
/// one decrement for every increment, nested spawns included — and no
/// spawned work is left waiting.
pub proof fn lemma_accounting_conservation<D>(t: &DeferredTask<D>)
    requires
        t.wf(),
        t.spec_waiting() == 0,
    ensures
        t.spec_spawned_total() == t.spec_completed_total(),
        t.spec_pending().len() == 0,
{
}

} // verus!
