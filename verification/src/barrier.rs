//! Decisions of the asynchronous pipeline driver.
//!
//! When phase work and background tasks run on real worker pools, the
//! driving thread alternates outside work — running a phase's units,
//! pumping the thread-local task queue, sleeping on a completion
//! notification with a short timeout, draining the command channel —
//! with decisions about what to do next.  Those decisions live here, in
//! a machine the runtime consults step by step: it performs the
//! directive, reports what it observed (chiefly the outstanding
//! counter), and asks again.
//!
//! The machine guarantees the barrier discipline: commands are drained
//! and applied only after the phase's work units have returned and the
//! outstanding counter has been observed at zero; a phase that returns
//! with nothing outstanding advances without a single wait; and every
//! wait is preceded by a pump of the thread-local queue, so tasks pinned
//! to the driving thread keep making progress while it waits.

use vstd::prelude::*;

verus! {

/// The polling interval of the waiting driver, in milliseconds: long
/// enough to sleep rather than spin, short enough to keep pumping the
/// thread-local queue for pinned tasks.
pub const WAIT_TIMEOUT_MS: u64 = 100;

/// Where the driver stands.
#[derive(Clone, Copy, PartialEq, Eq, Structural, Debug)]
pub enum DriverState {
    /// The work units of this phase are executing.
    RunningPhase { phase: usize },
    /// The phase's units have returned; background tasks are still
    /// outstanding.
    AwaitingTasks { phase: usize },
    /// The outstanding counter was observed at zero: the phase's
    /// commands may be drained and applied.
    Applying { phase: usize },
    /// Every phase has run and its barrier has cleared.
    Done,
}

/// What the runtime must do next.
#[derive(Clone, Copy, PartialEq, Eq, Structural, Debug)]
pub enum Directive {
    /// Execute the work units of this phase.
    RunUnits { phase: usize },
    /// Make one waiting iteration: if `pump_local` is set, first tick
    /// the thread-local task queue dry, then wait for a completion
    /// notification for at most `timeout_ms` milliseconds.
    PumpAndWait { pump_local: bool, timeout_ms: u64 },
    /// Drain the command queue completely and apply every command to
    /// the shared state, in receipt order.
    DrainAndApply,
    /// The run is over.
    Finish,
}

/// The directive the driver issues in state `s`.
pub open spec fn spec_directive(s: DriverState) -> Directive {
    match s {
        DriverState::RunningPhase { phase } => Directive::RunUnits { phase },
        DriverState::AwaitingTasks { .. } => Directive::PumpAndWait {
            pump_local: true,
            timeout_ms: WAIT_TIMEOUT_MS,
        },
        DriverState::Applying { .. } => Directive::DrainAndApply,
        DriverState::Done => Directive::Finish,
    }
}

/// The state after a phase's work units have returned and the
/// outstanding counter was observed at `outstanding`.
pub open spec fn spec_after_phase(s: DriverState, outstanding: u64) -> DriverState {
    match s {
        DriverState::RunningPhase { phase } => if outstanding == 0 {
            DriverState::Applying { phase }
        } else {
            DriverState::AwaitingTasks { phase }
        },
        _ => s,
    }
}

/// The state after one waiting iteration, with the counter re-read at
/// `outstanding`.
pub open spec fn spec_after_wait(s: DriverState, outstanding: u64) -> DriverState {
    match s {
        DriverState::AwaitingTasks { phase } => if outstanding == 0 {
            DriverState::Applying { phase }
        } else {
            DriverState::AwaitingTasks { phase }
        },
        _ => s,
    }
}

/// The state after the phase's commands have been applied, in a run of
/// `phase_count` phases.
pub open spec fn spec_after_apply(s: DriverState, phase_count: usize) -> DriverState {
    match s {
        DriverState::Applying { phase } => if phase + 1 < phase_count {
            DriverState::RunningPhase { phase: (phase + 1) as usize }
        } else {
            DriverState::Done
        },
        _ => s,
    }
}

/// The driving thread's step machine for one run of the pipeline.
pub struct PipelineDriver {
    state: DriverState,
    phase_count: usize,
}

impl PipelineDriver {
    /// The current state.
    pub closed spec fn spec_state(&self) -> DriverState {
        self.state
    }

    /// How many phases the run has.
    pub closed spec fn spec_phase_count(&self) -> usize {
        self.phase_count
    }

    /// The machine's invariant: any phase the state names exists.
    pub open spec fn wf(&self) -> bool {
        match self.spec_state() {
            DriverState::RunningPhase { phase } => phase < self.spec_phase_count(),
            DriverState::AwaitingTasks { phase } => phase < self.spec_phase_count(),
            DriverState::Applying { phase } => phase < self.spec_phase_count(),
            DriverState::Done => true,
        }
    }

    /// A driver at the start of a run of `phase_count` phases.
    pub fn new(phase_count: usize) -> (r: PipelineDriver)
        ensures
            r.wf(),
            r.spec_phase_count() == phase_count,
            phase_count > 0 ==> r.spec_state() == (DriverState::RunningPhase { phase: 0usize }),
            phase_count == 0 ==> r.spec_state() == DriverState::Done,
    {
        let state = if phase_count > 0 {
            DriverState::RunningPhase { phase: 0 }
        } else {
            DriverState::Done
        };
        PipelineDriver { state, phase_count }
    }

    /// What the runtime must do next.
    pub fn directive(&self) -> (d: Directive)
        ensures
            d == spec_directive(self.spec_state()),
    {
        match self.state {
            DriverState::RunningPhase { phase } => Directive::RunUnits { phase },
            DriverState::AwaitingTasks { .. } => Directive::PumpAndWait {
                pump_local: true,
                timeout_ms: WAIT_TIMEOUT_MS,
            },
            DriverState::Applying { .. } => Directive::DrainAndApply,
            DriverState::Done => Directive::Finish,
        }
    }

    /// The phase's work units have returned; `outstanding` is the
    /// counter read after pumping the local queue dry.
    pub fn on_phase_returned(&mut self, outstanding: u64)
        requires
            old(self).wf(),
            old(self).spec_state() is RunningPhase,
        ensures
            final(self).wf(),
            final(self).spec_phase_count() == old(self).spec_phase_count(),
            final(self).spec_state() == spec_after_phase(old(self).spec_state(), outstanding),
    {
        if let DriverState::RunningPhase { phase } = self.state {
            self.state = if outstanding == 0 {
                DriverState::Applying { phase }
            } else {
                DriverState::AwaitingTasks { phase }
            };
        }
    }

    /// One waiting iteration finished — by notification or by timeout —
    /// and the counter was re-read as `outstanding`.
    pub fn on_wait_returned(&mut self, outstanding: u64)
        requires
            old(self).wf(),
            old(self).spec_state() is AwaitingTasks,
        ensures
            final(self).wf(),
            final(self).spec_phase_count() == old(self).spec_phase_count(),
            final(self).spec_state() == spec_after_wait(old(self).spec_state(), outstanding),
    {
        if let DriverState::AwaitingTasks { phase } = self.state {
            self.state = if outstanding == 0 {
                DriverState::Applying { phase }
            } else {
                DriverState::AwaitingTasks { phase }
            };
        }
    }

    /// Every command collected for this phase has been applied.
    pub fn on_applied(&mut self)
        requires
            old(self).wf(),
            old(self).spec_state() is Applying,
        ensures
            final(self).wf(),
            final(self).spec_phase_count() == old(self).spec_phase_count(),
            final(self).spec_state() == spec_after_apply(
                old(self).spec_state(),
                old(self).spec_phase_count(),
            ),
    {
        if let DriverState::Applying { phase } = self.state {
            self.state = if phase + 1 < self.phase_count {
                DriverState::RunningPhase { phase: phase + 1 }
            } else {
                DriverState::Done
            };
        }
    }
}

/// Barrier exclusivity: commands are never applied while phase work is
/// executing.  The driver orders draining only in the applying state,
/// orders phase work only in the running state, and those states are
/// distinct; and the applying state is entered — from phase return or
/// from a waiting iteration — only on an observation of zero
/// outstanding tasks, never while units of the phase still run.
pub proof fn lemma_barrier_exclusivity(s: DriverState, outstanding: u64)
    ensures
        spec_directive(s) is DrainAndApply ==> s is Applying,
        spec_directive(s) is RunUnits ==> s is RunningPhase,
        !(s is Applying && s is RunningPhase),
        spec_after_phase(s, outstanding) is Applying && !(s is Applying) ==> outstanding == 0,
        spec_after_wait(s, outstanding) is Applying && !(s is Applying) ==> outstanding == 0,
{
}

/// Idle fast path: a phase whose units return with no background task
/// outstanding goes straight to applying — the driver never issues a
/// single wait for it.
pub proof fn lemma_idle_fast_path(s: DriverState)
    requires
        s is RunningPhase,
    ensures
        spec_after_phase(s, 0) is Applying,
        !(spec_directive(spec_after_phase(s, 0)) is PumpAndWait),
{
}

/// Pinned-task progress: whenever the driver waits at all, it pumps the
/// thread-local task queue first and sleeps only up to the polling
/// interval, so work pinned to the driving thread advances on every
/// iteration of the barrier wait.
pub proof fn lemma_wait_always_pumps(s: DriverState)
    ensures
        spec_directive(s) matches Directive::PumpAndWait { pump_local, timeout_ms } ==> pump_local
            == true && timeout_ms == WAIT_TIMEOUT_MS,
{
}

} // verus!
