use std::collections::BTreeSet;
use video_matrix::actions::standard_catalog;
use video_matrix::chain::{ChainAction, ChainEvent, ChainPhase, ChainRun, Failure, FailureKind};
use video_matrix::job::{resolve_all, Step};

fn steps(ids: &[&str]) -> Vec<Step> {
    let ids: Vec<String> = ids.iter().map(|s| s.to_string()).collect();
    resolve_all(&standard_catalog(), &ids)
}

fn custom_steps(pairs: &[(&str, &str)]) -> Vec<Step> {
    pairs
        .iter()
        .map(|(id, tag)| Step { id: id.to_string(), tag: Some(tag.to_string()) })
        .collect()
}

struct Outcome {
    units: usize,
    failures: Vec<Failure>,
    invoked: Vec<String>,
    kept: Option<String>,
}

/// Drives a chained job over a directory held in memory. `fails` names the
/// identifiers that fail, `silent` those that report success without writing.
fn drive(
    dir: &mut BTreeSet<String>,
    file: &str,
    steps: &[Step],
    fails: &[&str],
    silent: &[&str],
    rename_works: bool,
) -> Outcome {
    let mut run = ChainRun::new(file, &steps.to_vec_steps()).unwrap();
    let mut out = Outcome { units: 0, failures: Vec::new(), invoked: Vec::new(), kept: None };
    loop {
        let event = match run.next_action() {
            ChainAction::Invoke { step, input, expected } => {
                assert!(input == file || dir.contains(&input), "{} read before written", input);
                let id = run.step_id(step).unwrap();
                out.invoked.push(id.clone());
                if fails.contains(&id.as_str()) {
                    ChainEvent::StepFailed
                } else if silent.contains(&id.as_str()) {
                    ChainEvent::OutputMissing
                } else {
                    dir.insert(expected);
                    ChainEvent::OutputLocated
                }
            }
            ChainAction::Unresolved { .. } => ChainEvent::StepFailed,
            ChainAction::Rename { from, to } => {
                assert!(dir.contains(&from));
                if rename_works {
                    dir.remove(&from);
                    dir.insert(to);
                    ChainEvent::Renamed
                } else {
                    ChainEvent::RenameFailed
                }
            }
            ChainAction::Finish { delete, kept } => {
                for name in delete {
                    dir.remove(&name);
                }
                out.kept = kept;
                return out;
            }
        };
        let report = run.advance(event);
        out.units += report.units;
        if let Some(f) = report.failure {
            out.failures.push(f);
        }
    }
}

trait ToVecSteps {
    fn to_vec_steps(&self) -> Vec<Step>;
}

impl ToVecSteps for [Step] {
    fn to_vec_steps(&self) -> Vec<Step> {
        self.iter().map(|s| Step { id: s.id.clone(), tag: s.tag.clone() }).collect()
    }
}

fn dir_of(names: &[&str]) -> BTreeSet<String> {
    names.iter().map(|s| s.to_string()).collect()
}

#[test]
fn chained_batch_keeps_one_processed_file_per_input() {
    let mut dir = BTreeSet::new();
    let steps = steps(&["rotate", "mirror"]);
    let mut units = 0;
    for file in ["a.mp4", "b.mp4"] {
        let out = drive(&mut dir, file, &steps, &[], &[], true);
        units += out.units;
        assert!(out.failures.is_empty());
        assert_eq!(out.invoked, vec!["rotate".to_string(), "mirror".to_string()]);
    }
    assert_eq!(units, 2);
    assert_eq!(dir, dir_of(&["a_processed.mp4", "b_processed.mp4"]));
    assert!(!dir.contains("a_rotate.mp4"));
    assert!(!dir.contains("a_rot.mp4"));
}

#[test]
fn chain_names_each_step_after_the_one_before() {
    let steps = steps(&["rotate", "mirror", "bw"]);
    let mut run = ChainRun::new("clip.mov", &steps).unwrap();
    assert_eq!(
        run.next_action(),
        ChainAction::Invoke {
            step: 0,
            input: "clip.mov".to_string(),
            expected: "clip_rot.mov".to_string()
        }
    );
    run.advance(ChainEvent::OutputLocated);
    assert_eq!(
        run.next_action(),
        ChainAction::Invoke {
            step: 1,
            input: "clip_rot.mov".to_string(),
            expected: "clip_rot_flip.mov".to_string()
        }
    );
    run.advance(ChainEvent::OutputLocated);
    assert_eq!(run.located_steps(), 2);
    assert_eq!(
        run.next_action(),
        ChainAction::Invoke {
            step: 2,
            input: "clip_rot_flip.mov".to_string(),
            expected: "clip_rot_flip_bw.mov".to_string()
        }
    );
    let report = run.advance(ChainEvent::OutputLocated);
    assert_eq!(report.units, 0);
    assert_eq!(run.phase(), ChainPhase::Renaming);
    assert_eq!(
        run.next_action(),
        ChainAction::Rename {
            from: "clip_rot_flip_bw.mov".to_string(),
            to: "clip_processed.mov".to_string()
        }
    );
    let report = run.advance(ChainEvent::Renamed);
    assert_eq!(report.units, 1);
    assert_eq!(report.failure, None);
    assert!(run.is_finished());
    assert_eq!(
        run.next_action(),
        ChainAction::Finish {
            delete: vec!["clip_rot.mov".to_string(), "clip_rot_flip.mov".to_string()],
            kept: Some("clip_processed.mov".to_string())
        }
    );
}

#[test]
fn failing_step_aborts_the_chain_and_cleans_up() {
    let mut dir = BTreeSet::new();
    let steps = custom_steps(&[("A", "a"), ("B", "b"), ("C", "c")]);
    let out = drive(&mut dir, "in.mp4", &steps, &["B"], &[], true);
    assert_eq!(out.units, 1);
    assert_eq!(out.invoked, vec!["A".to_string(), "B".to_string()]);
    assert_eq!(out.failures, vec![Failure { step: 1, kind: FailureKind::TransformationFailed }]);
    assert_eq!(out.kept, None);
    assert!(!dir.contains("in_processed.mp4"));
    assert!(!dir.contains("in_a.mp4"));
    assert!(dir.is_empty());
}

#[test]
fn missing_output_aborts_the_chain() {
    let mut dir = BTreeSet::new();
    let steps = custom_steps(&[("A", "a"), ("B", "b"), ("C", "c")]);
    let out = drive(&mut dir, "in.mp4", &steps, &[], &["C"], true);
    assert_eq!(out.units, 1);
    assert_eq!(out.failures, vec![Failure { step: 2, kind: FailureKind::OutputNotFound }]);
    assert_eq!(out.kept, None);
    assert!(dir.is_empty());
}

#[test]
fn unknown_transformation_fails_only_its_job() {
    let mut dir = BTreeSet::new();
    let steps = steps(&["rotate", "nonsense", "mirror"]);
    let out = drive(&mut dir, "a.mp4", &steps, &[], &[], true);
    assert_eq!(out.units, 1);
    assert_eq!(out.invoked, vec!["rotate".to_string()]);
    assert_eq!(out.failures, vec![Failure { step: 1, kind: FailureKind::UnknownTransformation }]);
    assert!(dir.is_empty());
}

#[test]
fn rerunning_a_chain_leaves_no_intermediates() {
    let mut dir = BTreeSet::new();
    let steps = steps(&["rotate", "mirror", "bw"]);
    for _ in 0..2 {
        let out = drive(&mut dir, "a.mp4", &steps, &[], &[], true);
        assert_eq!(out.units, 1);
        assert_eq!(out.kept, Some("a_processed.mp4".to_string()));
        assert_eq!(dir, dir_of(&["a_processed.mp4"]));
    }
}

#[test]
fn failed_rename_keeps_the_located_output() {
    let mut dir = BTreeSet::new();
    let steps = steps(&["rotate", "mirror"]);
    let out = drive(&mut dir, "a.mp4", &steps, &[], &[], false);
    assert_eq!(out.units, 1);
    assert!(out.failures.is_empty());
    assert_eq!(out.kept, Some("a_rot_flip.mp4".to_string()));
    assert_eq!(dir, dir_of(&["a_rot_flip.mp4"]));
}

#[test]
fn single_step_chain_has_no_intermediates() {
    let mut dir = BTreeSet::new();
    let out = drive(&mut dir, "a.mkv", &steps(&["bw"]), &[], &[], true);
    assert_eq!(out.units, 1);
    assert_eq!(dir, dir_of(&["a_processed.mkv"]));
}

#[test]
fn kept_output_is_never_deleted() {
    let steps = custom_steps(&[("first", "processed"), ("second", "x")]);
    let mut run = ChainRun::new("a.mp4", &steps).unwrap();
    run.advance(ChainEvent::OutputLocated);
    run.advance(ChainEvent::OutputLocated);
    run.advance(ChainEvent::Renamed);
    assert_eq!(
        run.next_action(),
        ChainAction::Finish { delete: vec![], kept: Some("a_processed.mp4".to_string()) }
    );
}

#[test]
fn chain_without_steps_does_not_exist() {
    assert!(ChainRun::new("a.mp4", &Vec::new()).is_none());
}

#[test]
fn events_out_of_turn_change_nothing() {
    let steps = steps(&["rotate", "mirror"]);
    let mut run = ChainRun::new("a.mp4", &steps).unwrap();
    let report = run.advance(ChainEvent::Renamed);
    assert_eq!(report.units, 0);
    assert_eq!(report.failure, None);
    assert_eq!(run.phase(), ChainPhase::Running);
    assert_eq!(run.located_steps(), 0);
    run.advance(ChainEvent::OutputLocated);
    run.advance(ChainEvent::OutputLocated);
    let report = run.advance(ChainEvent::StepFailed);
    assert_eq!(report.units, 0);
    assert_eq!(run.phase(), ChainPhase::Renaming);
    run.advance(ChainEvent::RenameFailed);
    assert_eq!(run.phase(), ChainPhase::Succeeded);
    let report = run.advance(ChainEvent::StepFailed);
    assert_eq!(report.units, 0);
    assert_eq!(report.failure, None);
    assert_eq!(run.phase(), ChainPhase::Succeeded);
    assert_eq!(run.step_id(1), Some("mirror".to_string()));
    assert_eq!(run.step_id(2), None);
}

#[test]
fn source_without_extension_gets_mp4() {
    let steps = steps(&["rotate", "mirror"]);
    let mut run = ChainRun::new("clip", &steps).unwrap();
    run.advance(ChainEvent::OutputLocated);
    assert_eq!(
        run.next_action(),
        ChainAction::Invoke {
            step: 1,
            input: "clip_rot.mp4".to_string(),
            expected: "clip_rot_flip.mp4".to_string()
        }
    );
    run.advance(ChainEvent::OutputLocated);
    assert_eq!(
        run.next_action(),
        ChainAction::Rename {
            from: "clip_rot_flip.mp4".to_string(),
            to: "clip_processed.mp4".to_string()
        }
    );
}
