use mdsim::{plan_run, History, Run, RunAction, RunPlan, SimError, Verlet, VerletCUDA};

#[test]
fn plan_accepts_matching_counts() {
    assert_eq!(plan_run(500, 500, true, 2000), Ok(RunPlan { particles: 500, steps: 2000 }));
    assert_eq!(plan_run(0, 0, true, 7), Ok(RunPlan { particles: 0, steps: 7 }));
}

#[test]
fn plan_rejects_mismatched_counts() {
    assert_eq!(plan_run(4, 5, true, 10), Err(SimError::ParticleCountMismatch));
    assert_eq!(plan_run(4, 5, false, 10), Err(SimError::ParticleCountMismatch));
}

#[test]
fn plan_rejects_time_step_not_below_total() {
    let (dt, total) = (0.5f32, 0.5f32);
    let steps = (total / dt) as usize;
    assert_eq!(plan_run(4, 4, dt < total, steps), Err(SimError::TimeStepTooLarge));
    assert_eq!(plan_run(4, 4, false, 0), Err(SimError::TimeStepTooLarge));
}

#[test]
fn plan_rejects_unaddressable_history() {
    assert_eq!(plan_run(usize::MAX / 2, usize::MAX / 2, true, 1), Err(SimError::ShapeTooLarge));
    assert_eq!(plan_run(1 << 20, 1 << 20, true, usize::MAX / (1 << 20)), Err(SimError::ShapeTooLarge));
    assert_eq!(
        plan_run(usize::MAX / 2, usize::MAX / 2, true, 0),
        Ok(RunPlan { particles: usize::MAX / 2, steps: 0 })
    );
}

#[test]
fn verlet_initialise_and_deinit_do_nothing() {
    let mut v = Verlet {};
    assert_eq!(v.deinit(), Ok(()));
    assert_eq!(v.initialisation(), Ok(()));
    assert_eq!(v.initialisation(), Ok(()));
    assert_eq!(v.deinit(), Ok(()));
    assert_eq!(v.deinit(), Ok(()));
    assert_eq!(v, Verlet {});
}

#[test]
fn accelerated_backend_is_unavailable() {
    let mut v = VerletCUDA {};
    assert_eq!(v.initialisation(), Err(SimError::BackendUnavailable));
    assert_eq!(v.deinit(), Ok(()));
    assert_eq!(v, VerletCUDA {});
}

#[test]
fn history_records_each_step_once() {
    let mut h: History<f32> = History::new(3, 2, 0.0);
    assert_eq!(h.width(), 3);
    assert_eq!(h.steps(), 2);
    assert_eq!(h.recorded(), 0);
    assert_eq!(h.value(2, 1), 0.0);
    h.record(&[1.0, 2.0, 3.0]);
    assert_eq!(h.recorded(), 1);
    assert_eq!(h.value(0, 0), 1.0);
    assert_eq!(h.value(2, 0), 3.0);
    assert_eq!(h.value(0, 1), 0.0);
    h.record(&[4.0, 5.0, 6.0]);
    assert_eq!(h.recorded(), 2);
    assert_eq!(h.value(1, 0), 2.0);
    assert_eq!(h.value(1, 1), 5.0);
    assert_eq!(h.value(2, 1), 6.0);
}

#[test]
fn history_with_no_steps() {
    let h: History<u8> = History::new(12, 0, 9);
    assert_eq!(h.steps(), 0);
    assert_eq!(h.recorded(), 0);
}

#[test]
fn run_schedule_of_two_steps() {
    let mut run = Run::new(RunPlan { particles: 4, steps: 2 });
    let mut actions = Vec::new();
    loop {
        let a = run.action();
        actions.push(a);
        run.complete();
        if a == RunAction::Finished {
            break;
        }
    }
    assert_eq!(
        actions,
        vec![
            RunAction::Initialise,
            RunAction::ComputeForces,
            RunAction::Record(0),
            RunAction::Advance(0),
            RunAction::Record(1),
            RunAction::Advance(1),
            RunAction::Deinit,
            RunAction::Finished,
        ]
    );
    run.complete();
    assert_eq!(run.action(), RunAction::Finished);
}

#[test]
fn run_schedule_without_steps() {
    let mut run = Run::new(RunPlan { particles: 0, steps: 0 });
    assert_eq!(run.action(), RunAction::Initialise);
    run.complete();
    assert_eq!(run.action(), RunAction::ComputeForces);
    run.complete();
    assert_eq!(run.action(), RunAction::Deinit);
    run.complete();
    assert_eq!(run.action(), RunAction::Finished);
}

#[test]
fn refused_plan_runs_no_step() {
    // a run is only scheduled from an accepted plan
    let plan = plan_run(32, 32, 1.0f32 < 0.5f32, 0);
    assert_eq!(plan, Err(SimError::TimeStepTooLarge));
}
