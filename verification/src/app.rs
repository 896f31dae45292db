//! The pipeline driver.
//!
//! A [`ProcessorApp`] owns the fixed, ordered list of phases and the
//! deferred-task coordinator.  Running it executes every phase exactly
//! once, in order.  After the work units of a phase have returned, the
//! driver holds at the phase barrier: it executes every outstanding
//! background task (nested spawns included), and only once the
//! outstanding counter has returned to zero does it apply the collected
//! command queues to the shared state, in receipt order.  No command is
//! ever applied while a work unit of the phase is still executing, and
//! no phase starts before the previous barrier has cleared.

use vstd::prelude::*;

use crate::command::{fold_effects, CommandQueue, Mutation};
use crate::deferred::{DeferredScope, DeferredTask, DeferredWork, PendingTask};
use crate::errors::ProcessorError;
use crate::executor::{dep_scheduled_before, plan_order, valid_order};
use crate::phase::{ExecutionMode, Phase, ScheduleLabel, WorkUnit, WorkUnitEntry};

verus! {

/// What a completed run reports.
#[derive(Debug)]
pub struct RunReport {
    /// True when no background task was left outstanding: every spawn of
    /// the run was matched by a release before the run returned.
    pub complete: bool,
}

/// The sequence of all commands held by `qs`, queue after queue.
pub open spec fn flatten_queues<C>(qs: Seq<CommandQueue<C>>) -> Seq<C>
    decreases qs.len(),
{
    if qs.len() == 0 {
        Seq::empty()
    } else {
        qs[0]@ + flatten_queues(qs.subrange(1, qs.len() as int))
    }
}

/// The state view after applying the queues of `qs` one at a time, in
/// receipt order.
pub open spec fn fold_queues<S: View, C: Mutation<S>>(
    s: <S as View>::V,
    qs: Seq<CommandQueue<C>>,
) -> <S as View>::V
    decreases qs.len(),
{
    if qs.len() == 0 {
        s
    } else {
        fold_queues::<S, C>(
            crate::command::fold_effects::<S, C>(s, qs[0]@),
            qs.subrange(1, qs.len() as int),
        )
    }
}

/// No lost mutations: draining the collected queues into one stream and
/// replaying it — what the barrier does — applies exactly what applying
/// each queue in receipt order would: every command of every queue,
/// once, in order.
pub proof fn lemma_flattened_replay_preserves_queues<S: View, C: Mutation<S>>(
    s: <S as View>::V,
    qs: Seq<CommandQueue<C>>,
)
    ensures
        fold_effects::<S, C>(s, flatten_queues(qs)) == fold_queues::<S, C>(s, qs),
    decreases qs.len(),
{
    if qs.len() == 0 {
        assert(fold_effects::<S, C>(s, flatten_queues(qs)) == s);
    } else {
        let rest = qs.subrange(1, qs.len() as int);
        crate::command::lemma_fold_effects_concat::<S, C>(s, qs[0]@, flatten_queues(rest));
        lemma_flattened_replay_preserves_queues::<S, C>(
            fold_effects::<S, C>(s, qs[0]@),
            rest,
        );
    }
}

/// An assembled pipeline with nothing to do: no work unit registered in
/// any phase and no background task outstanding.
pub open spec fn idle_assembly<W, D>(phases: Seq<Phase<W>>, deferred: DeferredTask<D>) -> bool {
    &&& deferred.spec_waiting() == 0
    &&& forall|q: int| 0 <= q < phases.len() ==> (#[trigger] phases[q]).units@.len() == 0
}

/// `b` keeps the registration shape of `a`: as many phases, each with
/// its mode, its number of work units, and every unit's run-after
/// declarations unchanged.  Only the units' own values may differ.
pub open spec fn same_shape<W>(a: Seq<Phase<W>>, b: Seq<Phase<W>>) -> bool {
    &&& a.len() == b.len()
    &&& forall|p: int|
        0 <= p < a.len() ==> (#[trigger] b[p]).mode == a[p].mode && b[p].units@.len()
            == a[p].units@.len() && (forall|u: int|
            0 <= u < a[p].units@.len() ==> (#[trigger] b[p].units@[u]).after == a[p].units@[u].after)
}

/// An order valid for `u1` is valid for any unit list with the same
/// length and the same run-after declarations: validity reads nothing
/// but the dependencies.
proof fn lemma_valid_order_same_afters<W>(
    u1: Seq<WorkUnitEntry<W>>,
    u2: Seq<WorkUnitEntry<W>>,
    ord: Seq<usize>,
)
    requires
        u1.len() == u2.len(),
        forall|i: int| 0 <= i < u1.len() ==> (#[trigger] u2[i]).after == u1[i].after,
        valid_order(u1, ord),
    ensures
        valid_order(u2, ord),
{
    assert forall|k: int, j: int|
        0 <= k < ord.len() && 0 <= j
            < u2[ord[k] as int].after@.len() implies #[trigger] dep_scheduled_before(
        u2,
        ord,
        k,
        j,
    ) by {
        assert(u2[ord[k] as int].after == u1[ord[k] as int].after);
        assert(dep_scheduled_before(u1, ord, k, j));
        let m = choose|m: int| 0 <= m < k && ord[m] == u1[ord[k] as int].after@[j];
        assert(0 <= m < k && ord[m] == u2[ord[k] as int].after@[j]);
    }
}

/// The staged pipeline: the ordered phases with their registered work
/// units, and the coordinator that accounts for background tasks.
pub struct ProcessorApp<W, D> {
    phases: Vec<Phase<W>>,
    deferred: DeferredTask<D>,
}

impl<W, D> ProcessorApp<W, D> {
    /// The registered phases, in execution order.
    pub closed spec fn spec_phases(&self) -> Seq<Phase<W>> {
        self.phases@
    }

    /// The deferred-task coordinator.
    pub closed spec fn spec_deferred(&self) -> DeferredTask<D> {
        self.deferred
    }

    /// The driver's invariant: the pipeline has its five fixed phases,
    /// the coordinator's accounting is exact, and no task is
    /// half-executed between calls.
    pub open spec fn wf(&self) -> bool {
        &&& self.spec_phases().len() == 5
        &&& self.spec_deferred().wf()
        &&& self.spec_deferred().in_flight() == 0
    }

    /// A pipeline with the five standard phases, nothing registered, and
    /// no background task outstanding.
    pub fn new() -> (r: Self)
        ensures
            r.wf(),
            r.spec_phases().len() == 5,
            r.spec_phases()[0].mode == ExecutionMode::Sequential,
            r.spec_phases()[1].mode == ExecutionMode::Sequential,
            r.spec_phases()[2].mode == ExecutionMode::Parallel,
            r.spec_phases()[3].mode == ExecutionMode::Parallel,
            r.spec_phases()[4].mode == ExecutionMode::Sequential,
            forall|p: int| 0 <= p < 5 ==> (#[trigger] r.spec_phases()[p]).units@.len() == 0,
            r.spec_deferred().spec_waiting() == 0,
            r.spec_deferred().spec_pending().len() == 0,
            r.spec_deferred().spec_spawned_total() == 0,
            r.spec_deferred().spec_completed_total() == 0,
    {
        ProcessorApp { phases: Self::init_schedules(), deferred: DeferredTask::new() }
    }

    /// Builds the five standard phases with their execution modes: the
    /// loading phases and the writing phase are sequential — their work
    /// is mostly dispatching background I/O, so there is nothing to gain
    /// from running the units themselves in parallel — while the two
    /// transformation phases carry the CPU-heavy work and run parallel.
    fn init_schedules() -> (r: Vec<Phase<W>>)
        ensures
            r@.len() == 5,
            r@[0].mode == ExecutionMode::Sequential,
            r@[1].mode == ExecutionMode::Sequential,
            r@[2].mode == ExecutionMode::Parallel,
            r@[3].mode == ExecutionMode::Parallel,
            r@[4].mode == ExecutionMode::Sequential,
            forall|p: int| 0 <= p < 5 ==> (#[trigger] r@[p]).units@.len() == 0,
    {
        let mut phases: Vec<Phase<W>> = Vec::new();
        phases.push(Phase::new(ExecutionMode::Sequential));
        phases.push(Phase::new(ExecutionMode::Sequential));
        phases.push(Phase::new(ExecutionMode::Parallel));
        phases.push(Phase::new(ExecutionMode::Parallel));
        phases.push(Phase::new(ExecutionMode::Sequential));
        phases
    }

    /// Registers `unit` to run in the phase that `label` names, after
    /// the units of the same phase whose registration indices are listed
    /// in `after`.
    pub fn add_work_unit<L: ScheduleLabel>(&mut self, label: L, unit: W, after: Vec<usize>)
        requires
            0 <= label.spec_index() < old(self).spec_phases().len(),
        ensures
            final(self).spec_deferred() == old(self).spec_deferred(),
            final(self).spec_phases().len() == old(self).spec_phases().len(),
            forall|p: int|
                0 <= p < old(self).spec_phases().len() && p != label.spec_index() ==> final(self).spec_phases()[p] == old(self).spec_phases()[p],
            final(self).spec_phases()[label.spec_index()].mode == old(self).spec_phases()[label.spec_index()].mode,
            final(self).spec_phases()[label.spec_index()].units@ == old(self).spec_phases()[label.spec_index()].units@.push(
                (WorkUnitEntry { unit, after }),
            ),
    {
        let idx = label.index();
        self.phases[idx].units.push(WorkUnitEntry { unit, after });
    }

    /// Registers `unit` to run in the phase that `label` names, with no
    /// run-after dependency.
    pub fn add_systems<L: ScheduleLabel>(&mut self, label: L, unit: W)
        requires
            0 <= label.spec_index() < old(self).spec_phases().len(),
        ensures
            final(self).spec_deferred() == old(self).spec_deferred(),
            final(self).spec_phases().len() == old(self).spec_phases().len(),
            forall|p: int|
                0 <= p < old(self).spec_phases().len() && p != label.spec_index() ==> final(self).spec_phases()[p] == old(self).spec_phases()[p],
            final(self).spec_phases()[label.spec_index()].mode == old(self).spec_phases()[label.spec_index()].mode,
            final(self).spec_phases()[label.spec_index()].units@.len() == old(self).spec_phases()[label.spec_index()].units@.len() + 1,
            final(self).spec_phases()[label.spec_index()].units@.last().unit == unit,
            final(self).spec_phases()[label.spec_index()].units@.last().after@ == Seq::<
                usize,
            >::empty(),
            final(self).spec_phases()[label.spec_index()].units@.subrange(
                0,
                old(self).spec_phases()[label.spec_index()].units@.len() as int,
            ) == old(self).spec_phases()[label.spec_index()].units@,
    {
        let after: Vec<usize> = Vec::new();
        let ghost li = label.spec_index();
        let ghost before = self.spec_phases()[li].units@;
        self.add_work_unit(label, unit, after);
        proof {
            assert(self.spec_phases()[li].units@.subrange(0, before.len() as int) =~= before);
        }
    }

    /// Installs a plugin: the plugin registers its work units and is
    /// consumed.
    pub fn add_processor<P: ProcessorPlugin<W, D>>(&mut self, plugin: P)
        requires
            old(self).wf(),
        ensures
            final(self).wf(),
    {
        plugin.register(self);
    }

    /// Runs the pipeline: every phase once, in order, each followed by
    /// its barrier.
    ///
    /// At a barrier the driver executes every outstanding background
    /// task — nested spawns join the queue and are executed too — and
    /// then applies all collected command queues to `state`, in receipt
    /// order, exactly once each.  A phase's commands are applied only
    /// after all of its work units have returned, and the next phase
    /// starts only after the barrier has cleared.
    ///
    /// The run fails, without running the offending phase's units, only
    /// when a parallel phase's run-after declarations admit no execution
    /// order.  The report's `complete` flag is true exactly when no
    /// background task was left outstanding; the one way to leave work
    /// outstanding is to exhaust a barrier's execution budget, and an
    /// incomplete run therefore certifies that `u64::MAX` tasks were
    /// executed and released.  A pipeline with no work registered and
    /// nothing outstanding always runs to completion.
    pub fn run<S: View, C>(&mut self, state: &mut S) -> (r: Result<RunReport, ProcessorError>) where
        W: WorkUnit<S, C, D>,
        C: Mutation<S>,
        D: DeferredWork<C>,

        requires
            old(self).wf(),
        ensures
            final(self).wf(),
            same_shape(old(self).spec_phases(), final(self).spec_phases()),
            idle_assembly(old(self).spec_phases(), old(self).spec_deferred()) ==> (r matches Ok(
                report,
            ) && report.complete),
            match r {
                Ok(report) => report.complete == (final(self).spec_deferred().spec_waiting() == 0)
                    && (report.complete ==> final(self).spec_deferred().spec_spawned_total()
                    == final(self).spec_deferred().spec_completed_total()) && (!report.complete
                    ==> final(self).spec_deferred().spec_completed_total() >= old(
                    self,
                ).spec_deferred().spec_completed_total() + u64::MAX),
                Err(e) => e == ProcessorError::DependencyCycle && (exists|p: int|
                    0 <= p < old(self).spec_phases().len() && (#[trigger] old(self).spec_phases()[p]).mode == ExecutionMode::Parallel && !(exists|ord: Seq<usize>|
                        valid_order(old(self).spec_phases()[p].units@, ord))),
            },
    {
        let ghost phases0 = self.phases@;
        let ghost d_init = self.deferred;
        let n = self.phases.len();
        let mut p: usize = 0;
        while p < n
            invariant
                p <= n,
                n == 5,
                n == self.phases@.len(),
                phases0 == old(self).spec_phases(),
                d_init == old(self).spec_deferred(),
                same_shape(phases0, self.phases@),
                self.deferred.wf(),
                self.deferred.in_flight() == 0,
                self.deferred.spec_completed_total() >= d_init.spec_completed_total(),
                p > 0 ==> self.deferred.spec_waiting() == 0,
                idle_assembly(phases0, d_init) ==> self.deferred == d_init,
            decreases n - p,
        {
            let units_len = self.phases[p].units.len();
            let is_parallel = match self.phases[p].mode {
                ExecutionMode::Parallel => true,
                ExecutionMode::Sequential => false,
            };
            let order: Vec<usize>;
            if is_parallel {
                match plan_order(&self.phases[p].units) {
                    Some(ord) => {
                        order = ord;
                    },
                    None => {
                        proof {
                            if exists|ord2: Seq<usize>| valid_order(phases0[p as int].units@, ord2) {
                                let ord2 = choose|ord2: Seq<usize>|
                                    valid_order(phases0[p as int].units@, ord2);
                                lemma_valid_order_same_afters(
                                    phases0[p as int].units@,
                                    self.phases@[p as int].units@,
                                    ord2,
                                );
                                assert(false);
                            }
                            assert((p as int) < phases0.len());
                            assert(phases0[p as int].mode == ExecutionMode::Parallel);
                            assert(!exists|ord2: Seq<usize>|
                                valid_order(phases0[p as int].units@, ord2));
                            if idle_assembly(phases0, d_init) {
                                assert(valid_order(
                                    self.phases@[p as int].units@,
                                    Seq::<usize>::empty(),
                                ));
                                assert(false);
                            }
                        }
                        return Err(ProcessorError::DependencyCycle);
                    },
                }
            } else {
                order = identity_order(units_len);
            }
            let mut receipts: CommandQueue<C> = CommandQueue::new();
            let mut k: usize = 0;
            while k < order.len()
                invariant
                    p < n,
                    n == 5,
                    n == self.phases@.len(),
                    phases0 == old(self).spec_phases(),
                    d_init == old(self).spec_deferred(),
                    phases0[p as int].units@.len() == units_len,
                    order@.len() == units_len,
                    same_shape(phases0, self.phases@),
                    forall|k2: int| 0 <= k2 < order@.len() ==> (#[trigger] order@[k2]) < units_len,
                    self.deferred.wf(),
                    self.deferred.in_flight() == 0,
                    self.deferred.spec_completed_total() >= d_init.spec_completed_total(),
                    idle_assembly(phases0, d_init) ==> self.deferred == d_init,
                decreases order.len() - k,
            {
                let idx = order[k];
                let ghost phases_before = self.phases@;
                let mut scope: DeferredScope<C, D> = DeferredScope::new();
                self.phases[p].units[idx].unit.run(state, &mut scope);
                proof {
                    assert forall|q: int, u: int|
                        0 <= q < phases0.len() && 0 <= u < phases0[q].units@.len() implies (
                    #[trigger] self.phases@[q].units@[u]).after == phases0[q].units@[u].after by {
                        if q != p as int || u != idx as int {
                            assert(self.phases@[q].units@[u] == phases_before[q].units@[u]);
                        }
                    }
                    assert(same_shape(phases0, self.phases@));
                    if idle_assembly(phases0, d_init) {
                        assert(false);
                    }
                }
                let _saturated = merge_scope(scope, &mut self.deferred, &mut receipts);
                k = k + 1;
            }
            let barrier = drain_deferred(&mut self.deferred, state, receipts, u64::MAX);
            if !barrier.0 {
                proof {
                    if idle_assembly(phases0, d_init) {
                        assert(false);
                    }
                }
                return Ok(RunReport { complete: false });
            }
            p = p + 1;
        }
        let complete = self.deferred.waiting() == 0;
        Ok(RunReport { complete })
    }
}

/// A bundle of related work units that installs itself into a pipeline
/// during assembly.
pub trait ProcessorPlugin<W, D>: Sized {
    /// Registers this plugin's work units with `app`.
    fn register(self, app: &mut ProcessorApp<W, D>)
        requires
            old(app).wf(),
        ensures
            final(app).wf(),
    ;
}

impl<W, D> Default for ProcessorApp<W, D> {
    /// The standard five-phase pipeline with nothing registered.
    fn default() -> (r: Self)
        ensures
            r.wf(),
            r.spec_phases().len() == 5,
            r.spec_deferred().spec_waiting() == 0,
    {
        Self::new()
    }
}

/// The registration order itself: the execution order of a sequential
/// phase.
fn identity_order(len: usize) -> (r: Vec<usize>)
    ensures
        r@.len() == len,
        forall|k: int| 0 <= k < len ==> (#[trigger] r@[k]) == k,
{
    let mut r: Vec<usize> = Vec::new();
    let mut i: usize = 0;
    while i < len
        invariant
            i <= len,
            r@.len() == i,
            forall|k: int| 0 <= k < i ==> (#[trigger] r@[k]) == k,
        decreases len - i,
    {
        r.push(i);
        i = i + 1;
    }
    r
}

/// Moves everything a scope recorded into the run's bookkeeping: the
/// recorded command queues join `receipts` in the order they were
/// handed over, and the recorded spawns join the coordinator in spawn
/// order.  Spawns are accepted until the outstanding counter reaches
/// its maximum; `saturated` reports exactly whether any spawn was
/// refused on that account, and the counter, the pending queue and the
/// spawn total grow by exactly the accepted prefix.
fn merge_scope<C, D>(
    scope: DeferredScope<C, D>,
    deferred: &mut DeferredTask<D>,
    receipts: &mut CommandQueue<C>,
) -> (saturated: bool)
    requires
        old(deferred).wf(),
    ensures
        final(deferred).wf(),
        final(deferred).in_flight() == old(deferred).in_flight(),
        final(deferred).spec_completed_total() == old(deferred).spec_completed_total(),
        final(receipts)@ == old(receipts)@ + flatten_queues(scope.spec_sent()),
        saturated == (old(deferred).spec_waiting() + scope.spec_spawned().len() > u64::MAX),
        final(deferred).spec_waiting() == (if old(deferred).spec_waiting()
            + scope.spec_spawned().len() <= u64::MAX {
            old(deferred).spec_waiting() + scope.spec_spawned().len()
        } else {
            u64::MAX as int
        }),
        final(deferred).spec_pending() == old(deferred).spec_pending()
            + scope.spec_spawned().subrange(
            0,
            final(deferred).spec_waiting() - old(deferred).spec_waiting(),
        ),
        final(deferred).spec_spawned_total() == old(deferred).spec_spawned_total()
            + (final(deferred).spec_waiting() - old(deferred).spec_waiting()),
{
    let ghost sent0 = scope.spec_sent();
    let ghost spawned0 = scope.spec_spawned();
    let ghost r0 = receipts@;
    let ghost d0 = *deferred;
    let (mut sent, mut spawned) = scope.into_parts();
    while sent.len() > 0
        invariant
            receipts@ + flatten_queues(sent@) == r0 + flatten_queues(sent0),
            *deferred == d0,
        decreases sent.len(),
    {
        let ghost sent_before = sent@;
        let mut q = sent.remove(0);
        receipts.append(&mut q);
        proof {
            assert(flatten_queues(sent_before) == sent_before[0]@ + flatten_queues(sent@));
        }
    }
    proof {
        assert(receipts@ =~= r0 + flatten_queues(sent0));
    }
    let mut saturated = false;
    proof {
        assert(d0.spec_pending() + spawned0.subrange(0, 0) =~= d0.spec_pending());
    }
    while spawned.len() > 0
        invariant
            deferred.wf(),
            deferred.in_flight() == d0.in_flight(),
            deferred.spec_completed_total() == d0.spec_completed_total(),
            receipts@ == r0 + flatten_queues(sent0),
            spawned0.len() >= spawned@.len(),
            spawned@ == spawned0.subrange(spawned0.len() - spawned@.len(), spawned0.len() as int),
            saturated == (d0.spec_waiting() + (spawned0.len() - spawned@.len()) > u64::MAX),
            deferred.spec_waiting() == (if d0.spec_waiting() + (spawned0.len() - spawned@.len())
                <= u64::MAX {
                d0.spec_waiting() + (spawned0.len() - spawned@.len())
            } else {
                u64::MAX as int
            }),
            deferred.spec_pending() == d0.spec_pending() + spawned0.subrange(
                0,
                deferred.spec_waiting() - d0.spec_waiting(),
            ),
            deferred.spec_spawned_total() == d0.spec_spawned_total() + (deferred.spec_waiting()
                - d0.spec_waiting()),
        decreases spawned.len(),
    {
        let ghost consumed = spawned0.len() - spawned@.len();
        let ghost spawned_before = spawned@;
        let t = spawned.remove(0);
        let ok = deferred.submit(t);
        if !ok {
            saturated = true;
        }
        proof {
            assert(spawned@ =~= spawned0.subrange(
                spawned0.len() - spawned@.len(),
                spawned0.len() as int,
            ));
            if ok {
                assert(spawned_before[0] == spawned0[consumed]);
                assert(spawned0.subrange(0, consumed + 1) =~= spawned0.subrange(0, consumed).push(
                    spawned0[consumed],
                ));
            }
        }
    }
    saturated
}

/// The phase barrier: executes outstanding background work — nested
/// spawns join the queue and are executed too — until the outstanding
/// counter reaches zero or `budget` tasks have run, then applies every
/// collected command queue to `state`, in receipt order, exactly once
/// each.  An incomplete barrier certifies that exactly `budget` tasks
/// were executed and released.
///
/// Pinned tasks are executed like pooled ones: this driver is the
/// driving thread.  When no task is outstanding the barrier is a no-op
/// fast path: the coordinator is untouched and only the commands already
/// in `receipts` are applied.
fn drain_deferred<S, C, D>(
    deferred: &mut DeferredTask<D>,
    state: &mut S,
    receipts: CommandQueue<C>,
    budget: u64,
) -> (r: (bool, Ghost<Seq<C>>)) where S: View, C: Mutation<S>, D: DeferredWork<C>
    requires
        old(deferred).wf(),
        old(deferred).in_flight() == 0,
    ensures
        final(deferred).wf(),
        final(deferred).in_flight() == 0,
        r.0 == (final(deferred).spec_waiting() == 0),
        final(state)@ == fold_effects::<S, C>(old(state)@, r.1@),
        receipts@.len() <= r.1@.len() && r.1@.subrange(0, receipts@.len() as int) == receipts@,
        r.0 ==> final(deferred).spec_spawned_total() == final(deferred).spec_completed_total(),
        old(deferred).spec_completed_total() <= final(deferred).spec_completed_total() <= old(
            deferred,
        ).spec_completed_total() + budget,
        !r.0 ==> final(deferred).spec_completed_total() == old(deferred).spec_completed_total()
            + budget,
        old(deferred).spec_waiting() == 0 ==> *final(deferred) == *old(deferred) && r.1@
            == receipts@,
{
    let mut receipts = receipts;
    let ghost d0 = *deferred;
    let ghost r0 = receipts@;
    let mut fuel: u64 = budget;
    while deferred.pending_count() > 0 && fuel > 0
        invariant
            deferred.wf(),
            deferred.in_flight() == 0,
            fuel <= budget,
            deferred.spec_completed_total() == d0.spec_completed_total() + (budget - fuel),
            r0.len() <= receipts@.len(),
            receipts@.subrange(0, r0.len() as int) == r0,
            d0.spec_waiting() == 0 ==> *deferred == d0 && receipts@ == r0,
        decreases fuel,
    {
        let begun = deferred.begin_task();
        let guard = begun.1;
        let PendingTask { work, pinned: _ } = begun.0;
        let mut scope: DeferredScope<C, D> = DeferredScope::new();
        work.run(&mut scope);
        let ghost receipts_before = receipts@;
        let _saturated = merge_scope(scope, deferred, &mut receipts);
        guard.release(deferred);
        fuel = fuel - 1;
        proof {
            assert(receipts@.subrange(0, r0.len() as int) =~= receipts_before.subrange(
                0,
                r0.len() as int,
            ));
        }
    }
    let complete = deferred.waiting() == 0;
    let ghost applied = receipts@;
    receipts.apply(state);
    (complete, Ghost(applied))
}

} // verus!
