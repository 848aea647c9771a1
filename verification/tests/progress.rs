use video_matrix::job::BatchError;
use video_matrix::progress::{error_event, BatchProgress, Event};

#[test]
fn progress_counts_up_to_the_total() {
    let mut progress = BatchProgress::new(2, 3);
    assert_eq!(progress.completed_units(), 0);
    assert_eq!(progress.total_units(), 3);
    assert_eq!(progress.record(1), Some(Event::Progress { completed: 1, total: 3 }));
    assert_eq!(progress.record(2), Some(Event::Progress { completed: 3, total: 3 }));
    assert_eq!(progress.completed_units(), 3);
    assert_eq!(progress.record(1), None);
    assert_eq!(progress.completed_units(), 3);
    assert_eq!(progress.record(0), Some(Event::Progress { completed: 3, total: 3 }));
}

#[test]
fn progress_never_overflows() {
    let mut progress = BatchProgress::new(1, usize::MAX);
    assert_eq!(
        progress.record(usize::MAX - 1),
        Some(Event::Progress { completed: usize::MAX - 1, total: usize::MAX })
    );
    assert_eq!(progress.record(2), None);
    assert_eq!(progress.record(usize::MAX), None);
    assert_eq!(progress.completed_units(), usize::MAX - 1);
}

#[test]
fn finished_is_sent_once_after_the_last_job() {
    let mut progress = BatchProgress::new(3, 3);
    assert_eq!(progress.job_finished(), None);
    assert_eq!(progress.job_finished(), None);
    assert_eq!(progress.job_finished(), Some(Event::Finished));
    assert_eq!(progress.job_finished(), None);
    assert_eq!(progress.job_finished(), None);
}

#[test]
fn batch_without_jobs_never_finishes_by_a_job() {
    let mut progress = BatchProgress::new(0, 0);
    assert_eq!(progress.job_finished(), None);
}

#[test]
fn errors_that_stop_a_batch_have_a_message() {
    assert_eq!(error_event(BatchError::NoInputFiles), Event::Error("no input files".to_string()));
    assert_eq!(
        error_event(BatchError::NoTransformations),
        Event::Error("no transformations selected".to_string())
    );
    assert_eq!(
        error_event(BatchError::TooManyUnits),
        Event::Error("too many units of work".to_string())
    );
}
