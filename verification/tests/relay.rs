use sitter::dbus::{relay_line, Event, Relay};
use std::sync::mpsc::{channel, TryRecvError};

#[test]
fn header_line_is_sent_on_the_channel() {
    let (tx, rx) = channel::<Event>();
    let relay = relay_line("signal sender=:1.7 member=WakeUpScreen", &tx);
    assert_eq!(relay, Relay::Sent);
    let event = rx.try_recv().expect("one event");
    assert_eq!(event.member, "WakeUpScreen");
    assert_eq!(rx.try_recv(), Err(TryRecvError::Empty));
}

#[test]
fn other_lines_send_nothing() {
    let (tx, rx) = channel::<Event>();
    assert_eq!(relay_line("   string \"detail\"", &tx), Relay::NoEvent);
    assert_eq!(relay_line("signal sender=:1.7", &tx), Relay::NoEvent);
    assert_eq!(relay_line("", &tx), Relay::NoEvent);
    assert_eq!(rx.try_recv(), Err(TryRecvError::Empty));
}

#[test]
fn events_arrive_in_the_order_of_their_lines() {
    let (tx, rx) = channel::<Event>();
    assert_eq!(relay_line("signal member=ActiveChanged", &tx), Relay::Sent);
    assert_eq!(relay_line("   boolean true", &tx), Relay::NoEvent);
    assert_eq!(relay_line("signal member=WakeUpScreen", &tx), Relay::Sent);
    let first = rx.try_recv().expect("first event");
    let second = rx.try_recv().expect("second event");
    assert_eq!(first.member, "ActiveChanged");
    assert_eq!(second.member, "WakeUpScreen");
    assert!(first.time.nanos <= second.time.nanos);
    assert_eq!(rx.try_recv(), Err(TryRecvError::Empty));
}

#[test]
fn closed_channel_is_reported() {
    let (tx, rx) = channel::<Event>();
    drop(rx);
    assert_eq!(relay_line("signal member=WakeUpScreen", &tx), Relay::Closed);
    assert_eq!(relay_line("string \"detail\"", &tx), Relay::NoEvent);
}

#[test]
fn outcome_of_a_send() {
    assert_eq!(Relay::after_send(true), Relay::Sent);
    assert_eq!(Relay::after_send(false), Relay::Closed);
}

#[test]
fn watcher_stops_only_when_the_channel_is_closed() {
    assert!(Relay::NoEvent.keeps_watching());
    assert!(Relay::Sent.keeps_watching());
    assert!(!Relay::Closed.keeps_watching());
}
