//! Phases of the pipeline and the work registered to them.
//!
//! A pipeline is a fixed, ordered list of phases, each with an execution
//! mode: sequential phases run their work units one at a time on the
//! driving thread, parallel phases run them across the CPU-bound pool,
//! subject to declared run-after dependencies.

use vstd::prelude::*;

use crate::deferred::DeferredScope;

verus! {

/// How the work units of one phase are executed.
#[derive(Clone, Copy, PartialEq, Eq, Structural, Debug)]
pub enum ExecutionMode {
    /// One unit at a time, in registration order, on the driving thread.
    Sequential,
    /// Units run concurrently on the CPU-bound pool, ordered only by
    /// their declared run-after dependencies.
    Parallel,
}

/// A label naming one of the pipeline's phases.  Each label denotes a
/// fixed position in the phase list.
pub trait ScheduleLabel: Sized {
    /// The position this label denotes.
    spec fn spec_index(&self) -> int;

    /// The position this label denotes.
    fn index(&self) -> (r: usize)
        ensures
            r == self.spec_index(),
    ;
}

/// The configuration-acquisition phase; sequential, mostly dispatching
/// background I/O.
#[derive(Clone, Copy, PartialEq, Eq, Structural, Debug)]
pub struct Preload;

/// The content-loading phase; sequential, mostly dispatching background
/// I/O.
#[derive(Clone, Copy, PartialEq, Eq, Structural, Debug)]
pub struct Load;

/// The content-transformation phase; parallel CPU-bound work.
#[derive(Clone, Copy, PartialEq, Eq, Structural, Debug)]
pub struct Process;

/// The output-assembly phase; parallel CPU-bound work.
#[derive(Clone, Copy, PartialEq, Eq, Structural, Debug)]
pub struct PostProcess;

/// The output-writing phase; sequential, dispatching background I/O.
#[derive(Clone, Copy, PartialEq, Eq, Structural, Debug)]
pub struct Write;

impl ScheduleLabel for Preload {
    open spec fn spec_index(&self) -> int {
        0
    }

    fn index(&self) -> usize {
        0
    }
}

impl ScheduleLabel for Load {
    open spec fn spec_index(&self) -> int {
        1
    }

    fn index(&self) -> usize {
        1
    }
}

impl ScheduleLabel for Process {
    open spec fn spec_index(&self) -> int {
        2
    }

    fn index(&self) -> usize {
        2
    }
}

impl ScheduleLabel for PostProcess {
    open spec fn spec_index(&self) -> int {
        3
    }

    fn index(&self) -> usize {
        3
    }
}

impl ScheduleLabel for Write {
    open spec fn spec_index(&self) -> int {
        4
    }

    fn index(&self) -> usize {
        4
    }
}

/// One registered work unit of a phase.
///
/// A unit is invoked once per run of its phase.  It may read and write
/// the shared state directly and may spawn tracked background work
/// through its scope.  Implementations are opaque to the scheduler.
pub trait WorkUnit<S, C, D>: Sized {
    /// Performs the unit's work on `state`, recording background spawns
    /// and command queues in `scope`.
    fn run(&mut self, state: &mut S, scope: &mut DeferredScope<C, D>);
}

/// A work unit together with its declared run-after dependencies: the
/// registration indices, within the same phase, of the units that must
/// complete before this one starts.
pub struct WorkUnitEntry<W> {
    /// The registered unit.
    pub unit: W,
    /// Indices of units of the same phase to run after.
    pub after: Vec<usize>,
}

/// One phase: its execution mode and its registered work units, in
/// registration order.
pub struct Phase<W> {
    /// How the units of this phase are executed.
    pub mode: ExecutionMode,
    /// The registered units.
    pub units: Vec<WorkUnitEntry<W>>,
}

impl<W> Phase<W> {
    /// A phase with the given mode and nothing registered.
    pub fn new(mode: ExecutionMode) -> (r: Phase<W>)
        ensures
            r.mode == mode,
            r.units@ == Seq::<WorkUnitEntry<W>>::empty(),
    {
        Phase { mode, units: Vec::new() }
    }
}

} // verus!
