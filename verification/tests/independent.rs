use std::collections::BTreeSet;
use video_matrix::actions::standard_catalog;
use video_matrix::chain::{Failure, FailureKind};
use video_matrix::independent::{IndependentAction, IndependentRun, StepOutcome};
use video_matrix::job::{resolve_all, Step};
use video_matrix::progress::{BatchProgress, Event};

fn steps(ids: &[&str]) -> Vec<Step> {
    let ids: Vec<String> = ids.iter().map(|s| s.to_string()).collect();
    resolve_all(&standard_catalog(), &ids)
}

/// Drives an independent job over a directory held in memory; `fails` says
/// whether the transformation with an identifier fails on the file.
fn drive(
    dir: &mut BTreeSet<String>,
    file: &str,
    steps: &Vec<Step>,
    fails: &dyn Fn(&str, &str) -> bool,
) -> (usize, Vec<Failure>) {
    let mut run = IndependentRun::new(file, steps).unwrap();
    let mut units = 0;
    let mut failures = Vec::new();
    loop {
        let outcome = match run.next_action() {
            IndependentAction::Invoke { step, input, expected } => {
                assert_eq!(input, file);
                let id = run.step_id(step).unwrap();
                if fails(file, &id) {
                    StepOutcome::Failed
                } else {
                    dir.insert(expected);
                    StepOutcome::Succeeded
                }
            }
            IndependentAction::Unresolved { .. } => StepOutcome::Failed,
            IndependentAction::Finish => return (units, failures),
        };
        let report = run.advance(outcome);
        units += report.units;
        if let Some(f) = report.failure {
            failures.push(f);
        }
    }
}

#[test]
fn independent_batch_writes_one_output_per_step() {
    let mut dir = BTreeSet::new();
    let steps = steps(&["rotate", "mirror"]);
    let mut progress = BatchProgress::new(2, 4);
    let mut events = Vec::new();
    for file in ["a.mp4", "b.mp4"] {
        let (units, failures) = drive(&mut dir, file, &steps, &|_, _| false);
        assert!(failures.is_empty());
        for _ in 0..units {
            events.push(progress.record(1).unwrap());
        }
    }
    assert_eq!(events.len(), 4);
    assert_eq!(events[3], Event::Progress { completed: 4, total: 4 });
    let expected: BTreeSet<String> =
        ["a_rot.mp4", "a_flip.mp4", "b_rot.mp4", "b_flip.mp4"].iter().map(|s| s.to_string()).collect();
    assert_eq!(dir, expected);
}

#[test]
fn one_failure_stops_nothing_else() {
    let mut dir = BTreeSet::new();
    let steps = vec![
        Step { id: "A".to_string(), tag: Some("a".to_string()) },
        Step { id: "B".to_string(), tag: Some("b".to_string()) },
    ];
    let mut units = 0;
    let mut failures = Vec::new();
    for file in ["one.mp4", "two.mp4", "three.mp4"] {
        let (u, f) = drive(&mut dir, file, &steps, &|file, id| file == "two.mp4" && id == "A");
        units += u;
        failures.extend(f);
    }
    assert_eq!(units, 6);
    assert_eq!(dir.len(), 5);
    assert!(dir.contains("two_b.mp4"));
    assert!(!dir.contains("two_a.mp4"));
    assert_eq!(failures, vec![Failure { step: 0, kind: FailureKind::TransformationFailed }]);
}

#[test]
fn unknown_transformation_counts_as_a_failed_step() {
    let mut dir = BTreeSet::new();
    let (units, failures) =
        drive(&mut dir, "a.mp4", &steps(&["nonsense", "mirror"]), &|_, _| false);
    assert_eq!(units, 2);
    assert_eq!(failures, vec![Failure { step: 0, kind: FailureKind::UnknownTransformation }]);
    assert_eq!(dir.len(), 1);
    assert!(dir.contains("a_flip.mp4"));
}

#[test]
fn every_step_reads_the_original() {
    let mut run = IndependentRun::new("clip.mov", &steps(&["rotate", "zoom"])).unwrap();
    assert_eq!(
        run.next_action(),
        IndependentAction::Invoke {
            step: 0,
            input: "clip.mov".to_string(),
            expected: "clip_rot.mov".to_string()
        }
    );
    let report = run.advance(StepOutcome::Failed);
    assert_eq!(report.units, 1);
    assert_eq!(
        run.next_action(),
        IndependentAction::Invoke {
            step: 1,
            input: "clip.mov".to_string(),
            expected: "clip_ai_zoom.mov".to_string()
        }
    );
    run.advance(StepOutcome::Succeeded);
    assert!(run.is_finished());
    assert_eq!(run.completed_steps(), 2);
    assert_eq!(run.failed_steps(), 1);
    assert_eq!(run.next_action(), IndependentAction::Finish);
    let report = run.advance(StepOutcome::Succeeded);
    assert_eq!(report.units, 0);
    assert_eq!(report.failure, None);
    assert_eq!(run.completed_steps(), 2);
}

#[test]
fn job_without_steps_does_not_exist() {
    assert!(IndependentRun::new("a.mp4", &Vec::new()).is_none());
    let run = IndependentRun::new("a.mp4", &steps(&["bw"])).unwrap();
    assert!(!run.is_finished());
    assert_eq!(run.step_id(0), Some("bw".to_string()));
    assert_eq!(run.step_id(1), None);
}
