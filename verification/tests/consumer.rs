use video_matrix::channel::EventChannel;
use video_matrix::consumer::Monitor;
use video_matrix::progress::Event;

#[test]
fn monitor_shows_log_and_progress() {
    let mut monitor = Monitor::new();
    assert!(!monitor.is_processing());
    monitor.start();
    assert!(monitor.is_processing());
    assert!(monitor.handle(Event::Log("scanning".to_string()), "[10:00:00]"));
    assert!(monitor.handle(Event::Progress { completed: 1, total: 4 }, "[10:00:01]"));
    assert_eq!(monitor.progress(), (1, 4));
    assert_eq!(monitor.log_len(), 1);
    assert_eq!(monitor.log_line(0), Some("[10:00:00] scanning".to_string()));
    assert!(monitor.is_processing());
}

#[test]
fn finished_completes_the_progress() {
    let mut monitor = Monitor::new();
    monitor.start();
    monitor.handle(Event::Progress { completed: 3, total: 4 }, "t");
    assert!(!monitor.handle(Event::Finished, "[10:00:05]"));
    assert!(!monitor.is_processing());
    assert_eq!(monitor.progress(), (4, 4));
    assert_eq!(monitor.log_line(0), Some("[10:00:05] 🎉 所有任务已完成！".to_string()));
}

#[test]
fn error_ends_the_batch_and_is_logged() {
    let mut monitor = Monitor::new();
    monitor.start();
    monitor.handle(Event::Progress { completed: 1, total: 4 }, "t");
    assert!(!monitor.handle(Event::Error("no input files".to_string()), "[10:00:05]"));
    assert!(!monitor.is_processing());
    assert_eq!(monitor.progress(), (1, 4));
    assert_eq!(monitor.log_line(0), Some("[10:00:05] ❌ 错误: no input files".to_string()));
}

#[test]
fn poll_receives_up_to_the_terminal_event() {
    let mut channel = EventChannel::new(16);
    let mut monitor = Monitor::new();
    monitor.start();
    channel.send(Event::Log("one".to_string()));
    channel.send(Event::Progress { completed: 1, total: 2 });
    monitor.poll(&mut channel, "t");
    assert_eq!(channel.len(), 0);
    assert_eq!(monitor.log_len(), 1);
    assert_eq!(monitor.progress(), (1, 2));
    assert!(monitor.is_processing());
    assert!(channel.send(Event::Log("two".to_string())));
    assert!(channel.send(Event::Progress { completed: 2, total: 2 }));
    assert!(channel.send(Event::Finished));
    monitor.poll(&mut channel, "t");
    assert!(!monitor.is_processing());
    assert_eq!(monitor.log_len(), 3);
    assert_eq!(monitor.log_line(1), Some("t two".to_string()));
    assert_eq!(channel.len(), 0);
    assert!(!channel.send(Event::Log("late".to_string())));
}

#[test]
fn poll_of_an_empty_channel_changes_nothing() {
    let mut channel = EventChannel::new(4);
    let mut monitor = Monitor::new();
    monitor.poll(&mut channel, "t");
    assert_eq!(monitor.log_len(), 0);
    assert_eq!(monitor.progress(), (0, 0));
    assert!(channel.send(Event::Log("still listening".to_string())));
}

#[test]
fn stop_discards_what_the_jobs_still_send() {
    let mut channel = EventChannel::new(4);
    let mut monitor = Monitor::new();
    monitor.stop(&mut channel, "t");
    assert_eq!(monitor.log_len(), 0);
    assert!(channel.send(Event::Log("one".to_string())));
    monitor.start();
    monitor.stop(&mut channel, "[10:00:09]");
    assert!(!monitor.is_processing());
    assert_eq!(monitor.log_line(0), Some("[10:00:09] 🛑 用户停止处理".to_string()));
    assert_eq!(channel.len(), 0);
    assert!(!channel.send(Event::Progress { completed: 1, total: 2 }));
    assert!(!channel.send(Event::Finished));
}

#[test]
fn monitor_log_takes_lines_of_its_own() {
    let mut monitor = Monitor::new();
    monitor.log("[09:59:59]", "ready");
    assert_eq!(monitor.log_line(0), Some("[09:59:59] ready".to_string()));
    assert_eq!(monitor.log_line(1), None);
}

#[test]
fn events_received_now_carry_the_time_of_day() {
    let mut channel = EventChannel::new(4);
    let mut monitor = Monitor::new();
    monitor.start();
    assert!(monitor.handle_now(Event::Log("scanning".to_string())));
    monitor.log_now("by hand");
    monitor.stop_now(&mut channel);
    assert!(!monitor.is_processing());
    assert_eq!(monitor.log_len(), 3);
    for (i, text) in ["scanning", "by hand", "🛑 用户停止处理"].iter().enumerate() {
        let line = monitor.log_line(i).unwrap();
        assert_eq!(line.chars().count(), 11 + text.chars().count());
        assert!(line.starts_with('['));
        assert!(line.ends_with(text));
    }
    assert!(!monitor.handle_now(Event::Finished));
    assert!(!channel.send(Event::Finished));
}
