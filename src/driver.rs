use vstd::prelude::*;
use crate::error::SimError;

verus! {

/// The shape of an accepted run: how many particles move and how many
/// time steps are recorded.
#[derive(Debug, Clone, Copy, PartialEq, Eq, Structural)]
pub struct RunPlan {
    pub particles: usize,
    pub steps: usize,
}

/// Whether the trajectory of `particles` particles over `steps` steps, three
/// coordinates each, can be addressed in memory.
pub open spec fn history_fits(particles: int, steps: int) -> bool {
    particles * 3 * steps <= usize::MAX
}

/// Checks a run's configuration before any step is taken.
///
/// `position_count` and `velocity_count` are the particle counts of the two
/// initial fields, `step_below_total` says whether the time step is strictly
/// smaller than the total run time, and `steps` is the number of whole time
/// steps in the run. The counts are checked first, then the time step, then
/// whether the history buffers can be addressed.
pub fn plan_run(
    position_count: usize,
    velocity_count: usize,
    step_below_total: bool,
    steps: usize,
) -> (r: Result<RunPlan, SimError>)
    ensures
        position_count != velocity_count ==> r == Err::<RunPlan, SimError>(
            SimError::ParticleCountMismatch,
        ),
        position_count == velocity_count && !step_below_total ==> r == Err::<RunPlan, SimError>(
            SimError::TimeStepTooLarge,
        ),
        position_count == velocity_count && step_below_total && !history_fits(
            position_count as int,
            steps as int,
        ) ==> r == Err::<RunPlan, SimError>(SimError::ShapeTooLarge),
        position_count == velocity_count && step_below_total && history_fits(
            position_count as int,
            steps as int,
        ) ==> r == Ok::<RunPlan, SimError>(RunPlan { particles: position_count, steps }),
{
    if position_count != velocity_count {
        return Err(SimError::ParticleCountMismatch);
    }
    if !step_below_total {
        return Err(SimError::TimeStepTooLarge);
    }
    if position_count > usize::MAX / 3 {
        assert(position_count * 3 * steps > usize::MAX || steps == 0) by (nonlinear_arith)
            requires position_count > usize::MAX / 3;
        if steps == 0 {
            assert(position_count * 3 * steps == 0) by (nonlinear_arith)
                requires steps == 0;
            return Ok(RunPlan { particles: position_count, steps });
        }
        return Err(SimError::ShapeTooLarge);
    }
    let width = position_count * 3;
    if steps != 0 && width > usize::MAX / steps {
        assert(width * steps > usize::MAX) by (nonlinear_arith)
            requires steps != 0, width > usize::MAX / steps;
        return Err(SimError::ShapeTooLarge);
    }
    assert(width * steps <= usize::MAX) by (nonlinear_arith)
        requires steps == 0 || width <= usize::MAX / steps;
    Ok(RunPlan { particles: position_count, steps })
}

/// What the driving loop does next.
#[derive(Debug, Clone, Copy, PartialEq, Eq, Structural)]
pub enum RunAction {
    /// Acquire the integrator's resources.
    Initialise,
    /// Compute distances and forces of the initial configuration.
    ComputeForces,
    /// Record positions, velocities and observables of the current state as
    /// step `t`.
    Record(usize),
    /// Replace the current state by the integrator's step from it.
    Advance(usize),
    /// Release the integrator's resources.
    Deinit,
    /// Hand the accumulated history to the caller.
    Finished,
}

/// The `k`-th action of a run of `steps` steps: initialise, compute the
/// initial forces, then record and advance each step in turn, then deinit.
pub open spec fn run_action(steps: nat, k: nat) -> RunAction {
    if k == 0 {
        RunAction::Initialise
    } else if k == 1 {
        RunAction::ComputeForces
    } else if k < 2 + 2 * steps {
        let t = ((k - 2) / 2) as usize;
        if (k - 2) % 2 == 0 {
            RunAction::Record(t)
        } else {
            RunAction::Advance(t)
        }
    } else if k == 2 + 2 * steps {
        RunAction::Deinit
    } else {
        RunAction::Finished
    }
}

/// Number of actions before a run of `steps` steps is finished.
pub open spec fn run_length(steps: nat) -> nat {
    3 + 2 * steps
}

/// The schedule of one run: which action comes next. The caller performs
/// it and reports completion; a failed action ends the run with no result.
pub struct Run {
    steps: usize,
    performed: u128,
}

impl Run {
    pub closed spec fn spec_steps(&self) -> nat {
        self.steps as nat
    }

    /// How many actions have been completed.
    pub closed spec fn spec_performed(&self) -> nat {
        self.performed as nat
    }

    pub closed spec fn wf(&self) -> bool {
        self.performed <= run_length(self.steps as nat)
    }

    pub fn new(plan: RunPlan) -> (r: Run)
        ensures
            r.wf(),
            r.spec_steps() == plan.steps,
            r.spec_performed() == 0,
    {
        Run { steps: plan.steps, performed: 0 }
    }

    pub fn action(&self) -> (r: RunAction)
        requires
            self.wf(),
        ensures
            r == run_action(self.spec_steps(), self.spec_performed()),
    {
        let k = self.performed;
        let steps = self.steps as u128;
        if k == 0 {
            RunAction::Initialise
        } else if k == 1 {
            RunAction::ComputeForces
        } else if k < 2 + 2 * steps {
            let t = ((k - 2) / 2) as usize;
            if (k - 2) % 2 == 0 {
                RunAction::Record(t)
            } else {
                RunAction::Advance(t)
            }
        } else if k == 2 + 2 * steps {
            RunAction::Deinit
        } else {
            RunAction::Finished
        }
    }

    /// Marks the current action as done; a finished run stays finished.
    pub fn complete(&mut self)
        requires
            old(self).wf(),
        ensures
            final(self).wf(),
            final(self).spec_steps() == old(self).spec_steps(),
            old(self).spec_performed() < run_length(old(self).spec_steps())
                ==> final(self).spec_performed() == old(self).spec_performed() + 1,
            old(self).spec_performed() == run_length(old(self).spec_steps())
                ==> final(self).spec_performed() == old(self).spec_performed(),
    {
        if self.performed < 3 + 2 * (self.steps as u128) {
            self.performed = self.performed + 1;
        }
    }
}

/// Each step `t` of a run is recorded once, and advanced right after it is
/// recorded; deinit follows the last advance, and the run ends with it.
pub proof fn lemma_run_schedule(steps: usize, t: usize)
    requires
        t < steps,
    ensures
        run_action(steps as nat, 2 + 2 * t as nat) == RunAction::Record(t),
        run_action(steps as nat, 3 + 2 * t as nat) == RunAction::Advance(t),
        forall|k: nat| k != 2 + 2 * t ==> run_action(steps as nat, k) != RunAction::Record(t),
        run_action(steps as nat, (1 + 2 * steps) as nat) == RunAction::Advance((steps - 1) as usize),
        run_action(steps as nat, (2 + 2 * steps) as nat) == RunAction::Deinit,
        run_action(steps as nat, run_length(steps as nat)) == RunAction::Finished,
{
    let n = steps as int;
    let s = t as int;
    assert((2 + 2 * s - 2) / 2 == s && (2 + 2 * s - 2) % 2 == 0) by (nonlinear_arith);
    assert((3 + 2 * s - 2) / 2 == s && (3 + 2 * s - 2) % 2 == 1) by (nonlinear_arith);
    assert((1 + 2 * n - 2) / 2 == n - 1 && (1 + 2 * n - 2) % 2 == 1) by (nonlinear_arith)
        requires n >= 1;
    assert forall|k: nat| k != 2 + 2 * t implies run_action(steps as nat, k) != RunAction::Record(t) by {
        if 2 <= k < 2 + 2 * n && (k - 2) % 2 == 0 {
            assert((k - 2) / 2 != s && 0 <= (k - 2) / 2 < n) by (nonlinear_arith)
                requires
                    (k - 2) % 2 == 0,
                    k != 2 + 2 * s,
                    k >= 2,
                    k < 2 + 2 * n;
        }
    }
}

} // verus!
