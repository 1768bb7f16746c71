use alar::run::PlanRun;
use alar::step::{Step, Task};

fn task(name: &str, required: bool) -> Task {
    Task { step: Step::RemoveFile { path: name.to_string() }, required }
}

fn name(step: &Step) -> String {
    match step {
        Step::RemoveFile { path } => path.clone(),
        _ => unreachable!(),
    }
}

fn drive(steps: Vec<Task>, unwind: Vec<Task>, failing: &[&str]) -> (Vec<String>, Option<bool>) {
    let mut run = PlanRun::new(steps, unwind);
    let mut performed = Vec::new();
    loop {
        let current = match run.step() {
            Some(step) => name(step),
            None => break,
        };
        let ok = !failing.contains(&current.as_str());
        performed.push(current);
        run.report(ok);
    }
    (performed, run.result())
}

#[test]
fn plan_is_carried_out_in_order() {
    let steps = vec![task("a", true), task("b", false), task("c", true)];
    let (performed, result) = drive(steps, vec![task("u", false)], &[]);
    assert_eq!(performed, vec!["a", "b", "c"]);
    assert_eq!(result, Some(true));
}

#[test]
fn empty_plan_ends_at_once() {
    let mut run = PlanRun::new(vec![], vec![task("u", false)]);
    assert!(run.step().is_none());
    assert_eq!(run.result(), Some(true));
    assert!(!run.failed());
    run.report(false);
    assert_eq!(run.result(), Some(true));
}

#[test]
fn tolerated_failure_is_passed_over() {
    let steps = vec![task("a", false), task("b", false), task("c", false)];
    let (performed, result) = drive(steps, vec![task("u", false)], &["a", "b", "c"]);
    assert_eq!(performed, vec!["a", "b", "c"]);
    assert_eq!(result, Some(true));
}

#[test]
fn required_failure_ends_the_plan_and_undoes_it() {
    let steps = vec![task("a", true), task("b", true), task("c", true)];
    let unwind = vec![task("u1", false), task("u2", true), task("u3", false)];
    let (performed, result) = drive(steps, unwind, &["b", "u1", "u2"]);
    assert_eq!(performed, vec!["a", "b", "u1", "u2", "u3"]);
    assert_eq!(result, Some(false));
}

#[test]
fn required_failure_without_undoing_ends_the_run() {
    let mut run = PlanRun::new(vec![task("a", true), task("b", true)], vec![]);
    assert_eq!(run.result(), None);
    assert!(!run.failed());
    run.report(false);
    assert!(run.failed());
    assert!(run.step().is_none());
    assert_eq!(run.result(), Some(false));
}

#[test]
fn run_hands_its_plan_back() {
    let mut run = PlanRun::new(vec![task("a", true), task("b", false)], vec![task("u", false)]);
    run.report(true);
    let (steps, unwind) = run.into_tasks();
    assert_eq!(steps, vec![task("a", true), task("b", false)]);
    assert_eq!(unwind, vec![task("u", false)]);
}
