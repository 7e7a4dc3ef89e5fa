use musicserver_desktop::backend::runner::{PlanRun, StepOutcome};
use musicserver_desktop::backend::services::{start_plan, Service, Step};

#[test]
fn run_hands_out_steps_in_order() {
    let plan = start_plan();
    let mut run: PlanRun<&str> = PlanRun::new(plan.clone());
    let mut seen = Vec::new();
    while let Some(step) = run.next_step() {
        seen.push(step);
        let outcome = match step {
            Step::Launch(Service::Mongo) => StepOutcome::Launched(27017, "mongo-flag"),
            Step::Launch(Service::Backend) => StepOutcome::Launched(3000, "backend-flag"),
            _ => StepOutcome::Done,
        };
        run.record(outcome);
    }
    assert_eq!(seen, plan);
    assert_eq!(run.result(), Some(Ok(())));
    assert_eq!(run.launch_of(Service::Mongo), Some((27017, &"mongo-flag")));
    assert_eq!(run.launch_of(Service::Backend), Some((3000, &"backend-flag")));
}

#[test]
fn no_step_after_a_failure() {
    let mut run: PlanRun<()> = PlanRun::new(start_plan());
    assert_eq!(run.result(), None);
    assert_eq!(run.next_step(), Some(Step::CreateMongoDirs));
    run.record(StepOutcome::Done);
    assert_eq!(run.next_step(), Some(Step::Announce(musicserver_desktop::backend::services::Notice::StartingMongo)));
    run.record(StepOutcome::Done);
    assert_eq!(run.next_step(), Some(Step::Launch(Service::Mongo)));
    run.record(StepOutcome::Failed("failed to spawn mongod: missing".to_string()));
    assert_eq!(run.next_step(), None);
    run.record(StepOutcome::Done);
    assert_eq!(run.next_step(), None);
    assert_eq!(run.result(), Some(Err("failed to spawn mongod: missing".to_string())));
    assert_eq!(run.launch_of(Service::Mongo), None);
}

#[test]
fn launch_outcome_on_other_step_records_nothing() {
    let mut run: PlanRun<u8> = PlanRun::new(vec![Step::BackendDown, Step::Launch(Service::Backend)]);
    run.record(StepOutcome::Launched(1, 9));
    assert_eq!(run.launch_of(Service::Backend), None);
    assert_eq!(run.next_step(), Some(Step::Launch(Service::Backend)));
    run.record(StepOutcome::Launched(4000, 7));
    assert_eq!(run.launch_of(Service::Backend), Some((4000, &7)));
    assert_eq!(run.result(), Some(Ok(())));
}

#[test]
fn empty_plan_is_finished() {
    let run: PlanRun<()> = PlanRun::new(Vec::new());
    assert_eq!(run.next_step(), None);
    assert_eq!(run.result(), Some(Ok(())));
}
