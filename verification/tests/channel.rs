use video_matrix::channel::EventChannel;
use video_matrix::progress::Event;

fn log(text: &str) -> Event {
    Event::Log(text.to_string())
}

#[test]
fn events_arrive_in_the_order_sent() {
    let mut channel = EventChannel::new(8);
    assert!(channel.send(log("one")));
    assert!(channel.send(Event::Progress { completed: 1, total: 2 }));
    assert!(channel.send(log("two")));
    assert_eq!(channel.len(), 3);
    assert_eq!(channel.try_receive(), Some(log("one")));
    assert_eq!(channel.try_receive(), Some(Event::Progress { completed: 1, total: 2 }));
    assert_eq!(channel.try_receive(), Some(log("two")));
    assert_eq!(channel.try_receive(), None);
    assert_eq!(channel.try_receive(), None);
}

#[test]
fn full_channel_drops_the_oldest_event() {
    let mut channel = EventChannel::new(2);
    assert!(channel.send(log("one")));
    assert!(channel.send(log("two")));
    assert!(channel.send(log("three")));
    assert_eq!(channel.len(), 2);
    assert_eq!(channel.try_receive(), Some(log("two")));
    assert_eq!(channel.try_receive(), Some(log("three")));
    assert_eq!(channel.try_receive(), None);
}

#[test]
fn terminal_event_is_taken_by_a_full_channel() {
    let mut channel = EventChannel::new(2);
    channel.send(log("one"));
    channel.send(log("two"));
    assert!(channel.send(Event::Finished));
    assert!(channel.is_ended());
    assert_eq!(channel.len(), 3);
    assert!(!channel.send(log("late")));
    assert!(!channel.send(Event::Finished));
    assert!(!channel.send(Event::Error("late".to_string())));
    assert_eq!(channel.try_receive(), Some(log("one")));
    assert_eq!(channel.try_receive(), Some(log("two")));
    assert_eq!(channel.try_receive(), Some(Event::Finished));
    assert_eq!(channel.try_receive(), None);
    assert!(!channel.send(Event::Finished));
}

#[test]
fn error_ends_the_channel_too() {
    let mut channel = EventChannel::new(4);
    assert!(channel.send(Event::Error("no input files".to_string())));
    assert!(!channel.send(Event::Finished));
    assert_eq!(channel.try_receive(), Some(Event::Error("no input files".to_string())));
    assert_eq!(channel.try_receive(), None);
}

#[test]
fn channel_without_room_still_takes_the_terminal_event() {
    let mut channel = EventChannel::new(0);
    assert!(!channel.send(log("lost")));
    assert_eq!(channel.len(), 0);
    assert!(channel.send(Event::Finished));
    assert_eq!(channel.try_receive(), Some(Event::Finished));
}

#[test]
fn sends_after_stop_are_discarded() {
    let mut channel = EventChannel::new(4);
    channel.send(log("one"));
    channel.stop();
    assert_eq!(channel.len(), 0);
    assert!(!channel.send(log("two")));
    assert!(!channel.send(Event::Finished));
    assert!(!channel.is_ended());
    assert_eq!(channel.try_receive(), None);
}
