use video_matrix::actions::standard_catalog;
use video_matrix::chain::{ChainEvent, Failure, FailureKind};
use video_matrix::job::{resolve_all, Step};
use video_matrix::preview::{cut_arguments, source_name, PreviewAction, PreviewRun};

fn steps(ids: &[&str]) -> Vec<Step> {
    let ids: Vec<String> = ids.iter().map(|s| s.to_string()).collect();
    resolve_all(&standard_catalog(), &ids)
}

#[test]
fn preview_cuts_five_seconds() {
    let expected: Vec<String> = [
        "-y", "-ss", "0", "-t", "5", "-i", "in.mov", "-c:v", "libx264", "-preset", "ultrafast",
        "-c:a", "aac", "preview/temp_source.mp4",
    ]
    .iter()
    .map(|s| s.to_string())
    .collect();
    assert_eq!(cut_arguments("in.mov", "preview/temp_source.mp4"), expected);
}

#[test]
fn preview_counts_every_located_output() {
    assert_eq!(source_name(), "temp_source.mp4");
    let mut run = PreviewRun::new(source_name(), &steps(&["rotate", "bw"])).unwrap();
    assert_eq!(
        run.next_action(),
        PreviewAction::Invoke {
            step: 0,
            input: "temp_source.mp4".to_string(),
            expected: "temp_source_rot.mp4".to_string()
        }
    );
    let report = run.advance(ChainEvent::OutputLocated);
    assert_eq!(report.units, 1);
    assert!(!run.is_finished());
    assert_eq!(
        run.next_action(),
        PreviewAction::Invoke {
            step: 1,
            input: "temp_source_rot.mp4".to_string(),
            expected: "temp_source_rot_bw.mp4".to_string()
        }
    );
    let report = run.advance(ChainEvent::OutputLocated);
    assert_eq!(report.units, 1);
    assert_eq!(report.failure, None);
    assert!(run.is_finished());
    assert_eq!(
        run.next_action(),
        PreviewAction::Show { result: "temp_source_rot_bw.mp4".to_string(), complete: true }
    );
    let report = run.advance(ChainEvent::OutputLocated);
    assert_eq!(report.units, 0);
    let report = run.advance(ChainEvent::Renamed);
    assert_eq!(report.units, 0);
    assert_eq!(
        run.next_action(),
        PreviewAction::Show { result: "temp_source_rot_bw.mp4".to_string(), complete: true }
    );
}

#[test]
fn failed_preview_shows_the_last_file_that_was_made() {
    let mut run = PreviewRun::new("temp_source.mp4", &steps(&["rotate", "bw", "mute"])).unwrap();
    run.advance(ChainEvent::OutputLocated);
    let report = run.advance(ChainEvent::StepFailed);
    assert_eq!(report.units, 0);
    assert_eq!(report.failure, Some(Failure { step: 1, kind: FailureKind::TransformationFailed }));
    assert!(run.is_finished());
    assert_eq!(
        run.next_action(),
        PreviewAction::Show { result: "temp_source_rot.mp4".to_string(), complete: false }
    );
}

#[test]
fn preview_that_fails_at_once_shows_the_cut() {
    let mut run = PreviewRun::new("temp_source.mp4", &steps(&["nonsense"])).unwrap();
    assert_eq!(run.next_action(), PreviewAction::Unresolved { step: 0 });
    let report = run.advance(ChainEvent::StepFailed);
    assert_eq!(report.failure, Some(Failure { step: 0, kind: FailureKind::UnknownTransformation }));
    assert_eq!(
        run.next_action(),
        PreviewAction::Show { result: "temp_source.mp4".to_string(), complete: false }
    );
    assert!(PreviewRun::new("temp_source.mp4", &Vec::new()).is_none());
}
