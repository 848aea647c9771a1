use video_matrix::log::{LogBuffer, LOG_CAPACITY};

#[test]
fn log_lines_carry_their_time() {
    let mut log = LogBuffer::new();
    assert_eq!(log.len(), 0);
    log.log("[12:00:01]", "started");
    log.log("[12:00:02]", "done");
    assert_eq!(log.len(), 2);
    assert_eq!(log.line(0), Some("[12:00:01] started".to_string()));
    assert_eq!(log.line(1), Some("[12:00:02] done".to_string()));
    assert_eq!(log.line(2), None);
}

#[test]
fn log_keeps_the_latest_hundred_lines() {
    assert_eq!(LOG_CAPACITY, 100);
    let mut log = LogBuffer::new();
    for i in 0..100 {
        log.log("t", &format!("{}", i));
    }
    assert_eq!(log.len(), 100);
    assert_eq!(log.line(0), Some("t 0".to_string()));
    log.log("t", "100");
    assert_eq!(log.len(), 100);
    assert_eq!(log.line(0), Some("t 1".to_string()));
    assert_eq!(log.line(99), Some("t 100".to_string()));
    for i in 101..250 {
        log.log("t", &format!("{}", i));
    }
    assert_eq!(log.len(), 100);
    assert_eq!(log.line(0), Some("t 150".to_string()));
    assert_eq!(log.line(99), Some("t 249".to_string()));
}

#[test]
fn log_now_stamps_the_line_with_the_time_of_day() {
    let mut log = LogBuffer::new();
    log.log_now("started");
    assert_eq!(log.len(), 1);
    let line = log.line(0).unwrap();
    let chars: Vec<char> = line.chars().collect();
    assert_eq!(chars.len(), 10 + 1 + "started".len());
    assert_eq!(chars[0], '[');
    assert_eq!(chars[3], ':');
    assert_eq!(chars[6], ':');
    assert_eq!(chars[9], ']');
    assert!(line.ends_with("] started"));
}
