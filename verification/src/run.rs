//! How a plan is carried out.
//!
//! The driver asks which step is due, performs it, and reports whether it
//! succeeded. [`PlanRun`] decides what follows: the next step, the steps
//! that undo a failed plan, or the end. It never goes back to a step, and
//! it never tries a step twice.

use crate::step::{views, Step, Task, TaskView};
use vstd::prelude::*;

verus! {

/// Where a run stands.
#[derive(Debug, Clone, Copy, PartialEq, Eq, Structural)]
pub enum Phase {
    /// The step of the plan at this position is due.
    Running { at: usize },
    /// A required step failed; the undoing step at this position is due.
    Unwinding { at: usize },
    /// Nothing is due any more.
    Finished { success: bool },
}

/// A plan that is being carried out.
pub struct PlanRun {
    steps: Vec<Task>,
    unwind: Vec<Task>,
    phase: Phase,
}

/// Mathematical form of a [`PlanRun`].
pub struct PlanRunView {
    pub steps: Seq<TaskView>,
    pub unwind: Seq<TaskView>,
    pub phase: Phase,
}

/// Where a run starts: at the first step, or at the end where there is none.
pub open spec fn first_phase(steps: Seq<TaskView>) -> Phase {
    if steps.len() == 0 {
        Phase::Finished { success: true }
    } else {
        Phase::Running { at: 0 }
    }
}

impl PlanRunView {
    /// The invariant of a run: a step that is due exists.
    pub open spec fn wf(self) -> bool {
        match self.phase {
            Phase::Running { at } => at < self.steps.len(),
            Phase::Unwinding { at } => at < self.unwind.len(),
            Phase::Finished { .. } => true,
        }
    }

    /// The step that is due.
    pub open spec fn due(self) -> Option<TaskView> {
        match self.phase {
            Phase::Running { at } => Some(self.steps[at as int]),
            Phase::Unwinding { at } => Some(self.unwind[at as int]),
            Phase::Finished { .. } => None,
        }
    }

    /// Where the run stands after the step that is due was performed.
    /// A step of the plan that succeeded, or that is not required, is
    /// followed by the next one. A required step that failed is followed
    /// by the steps that undo the plan, and those follow each other
    /// whether they succeed or not.
    pub open spec fn after(self, succeeded: bool) -> Phase {
        match self.phase {
            Phase::Running { at } => if succeeded || !self.steps[at as int].required {
                if at + 1 < self.steps.len() {
                    Phase::Running { at: (at + 1) as usize }
                } else {
                    Phase::Finished { success: true }
                }
            } else if self.unwind.len() > 0 {
                Phase::Unwinding { at: 0 }
            } else {
                Phase::Finished { success: false }
            },
            Phase::Unwinding { at } => if at + 1 < self.unwind.len() {
                Phase::Unwinding { at: (at + 1) as usize }
            } else {
                Phase::Finished { success: false }
            },
            Phase::Finished { success } => Phase::Finished { success },
        }
    }

    /// The run after a report.
    pub open spec fn reported(self, succeeded: bool) -> PlanRunView {
        PlanRunView { phase: self.after(succeeded), ..self }
    }
}

/// Position of a phase in the order in which a run passes through its
/// phases: the steps of the plan, then the undoing steps, then the end.
pub open spec fn progress(run: PlanRunView) -> int {
    match run.phase {
        Phase::Running { at } => at as int,
        Phase::Unwinding { at } => run.steps.len() + at,
        Phase::Finished { .. } => (run.steps.len() + run.unwind.len()) as int,
    }
}

/// A run only moves forward: every report brings it further, so that no
/// step is performed twice, and a run of a plan ends after at most as many
/// reports as the plan and its undoing have steps.
pub proof fn lemma_run_moves_forward(run: PlanRunView, succeeded: bool)
    requires
        run.wf(),
        run.steps.len() <= usize::MAX,
        run.unwind.len() <= usize::MAX,
    ensures
        run.reported(succeeded).wf(),
        run.due() is Some ==> progress(run) < progress(run.reported(succeeded)),
        run.due() is None ==> run.reported(succeeded) == run,
{
}

/// A plan without required steps is carried out to its end whatever
/// fails: each step is followed by the next one, and the run ends well.
pub proof fn lemma_best_effort_runs_every_step(run: PlanRunView, succeeded: bool)
    requires
        run.wf(),
        run.steps.len() <= usize::MAX,
        forall|i: int| 0 <= i < run.steps.len() ==> !(#[trigger] run.steps[i]).required,
        run.phase is Running,
    ensures
        match run.after(succeeded) {
            Phase::Running { at } => at == run.phase->Running_at + 1,
            Phase::Finished { success } => success && run.phase->Running_at + 1
                == run.steps.len(),
            Phase::Unwinding { .. } => false,
        },
{
}

/// After a required step has failed, no further step of the plan is
/// performed: the undoing steps follow, all of them, and the run ends as
/// failed.
pub proof fn lemma_failure_ends_the_plan(run: PlanRunView, succeeded: bool)
    requires
        run.wf(),
        run.unwind.len() <= usize::MAX,
    ensures
        run.phase matches Phase::Running { at } && run.steps[at as int].required ==> !(run.after(
            false,
        ) is Running) && run.after(false) != (Phase::Finished { success: true }),
        run.phase matches Phase::Unwinding { at } ==> (if at + 1 < run.unwind.len() {
            run.after(succeeded) == (Phase::Unwinding { at: (at + 1) as usize })
        } else {
            run.after(succeeded) == (Phase::Finished { success: false })
        }),
{
}

impl PlanRun {
    /// The mathematical state.
    pub closed spec fn view(&self) -> PlanRunView {
        PlanRunView { steps: views(self.steps@), unwind: views(self.unwind@), phase: self.phase }
    }

    /// Starts the run of a plan. `unwind` is what undoes the plan when one
    /// of its required steps fails.
    pub fn new(steps: Vec<Task>, unwind: Vec<Task>) -> (run: PlanRun)
        ensures
            run@.wf(),
            run@ == (PlanRunView {
                steps: views(steps@),
                unwind: views(unwind@),
                phase: first_phase(views(steps@)),
            }),
    {
        let phase = if steps.len() == 0 {
            Phase::Finished { success: true }
        } else {
            Phase::Running { at: 0 }
        };
        PlanRun { steps, unwind, phase }
    }

    /// The step that is due; `None` when the run has ended.
    pub fn step(&self) -> (r: Option<&Step>)
        requires
            self@.wf(),
        ensures
            match r {
                Some(step) => self@.due() is Some && step@ == self@.due()->Some_0.step,
                None => self@.due() is None,
            },
    {
        match self.phase {
            Phase::Running { at } => {
                assert(views(self.steps@)[at as int] == self.steps@[at as int]@);
                Some(&self.steps[at].step)
            },
            Phase::Unwinding { at } => {
                assert(views(self.unwind@)[at as int] == self.unwind@[at as int]@);
                Some(&self.unwind[at].step)
            },
            Phase::Finished { .. } => None,
        }
    }

    /// Takes the report on the step that is due. When the run has ended,
    /// nothing changes.
    pub fn report(&mut self, succeeded: bool)
        requires
            old(self)@.wf(),
        ensures
            final(self)@ == old(self)@.reported(succeeded),
            final(self)@.wf(),
    {
        assert(self@.steps.len() == self.steps.len());
        assert(self@.unwind.len() == self.unwind.len());
        let next = match self.phase {
            Phase::Running { at } => {
                assert(views(self.steps@)[at as int] == self.steps@[at as int]@);
                if succeeded || !self.steps[at].required {
                    if at + 1 < self.steps.len() {
                        Phase::Running { at: at + 1 }
                    } else {
                        Phase::Finished { success: true }
                    }
                } else if self.unwind.len() > 0 {
                    Phase::Unwinding { at: 0 }
                } else {
                    Phase::Finished { success: false }
                }
            },
            Phase::Unwinding { at } => {
                if at + 1 < self.unwind.len() {
                    Phase::Unwinding { at: at + 1 }
                } else {
                    Phase::Finished { success: false }
                }
            },
            Phase::Finished { success } => Phase::Finished { success },
        };
        self.phase = next;
    }

    /// Ends the run and hands the plan and its undoing back, so that
    /// the driver can dispose of what they hold.
    pub fn into_tasks(self) -> (r: (Vec<Task>, Vec<Task>))
        ensures
            views(r.0@) == self@.steps,
            views(r.1@) == self@.unwind,
    {
        (self.steps, self.unwind)
    }

    /// Whether a required step has failed.
    pub fn failed(&self) -> (r: bool)
        ensures
            r == (self@.phase is Unwinding || self@.phase == (Phase::Finished { success: false })),
    {
        match self.phase {
            Phase::Running { .. } => false,
            Phase::Unwinding { .. } => true,
            Phase::Finished { success } => !success,
        }
    }

    /// How the run ended: `Some(true)` when the plan was carried out,
    /// `Some(false)` when a required step failed; `None` while a step is due.
    pub fn result(&self) -> (r: Option<bool>)
        ensures
            r == match self@.phase {
                Phase::Finished { success } => Some(success),
                _ => None,
            },
    {
        match self.phase {
            Phase::Finished { success } => Some(success),
            _ => None,
        }
    }
}

} // verus!
