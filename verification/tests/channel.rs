use netmount::channel::DiagnosticChannel;
use netmount::output::{DiagnosticLine, Stream};

fn out(text: &str) -> DiagnosticLine {
    DiagnosticLine::new(Stream::Stdout, text)
}

#[test]
fn new_channel_is_empty_and_listening() {
    let mut channel = DiagnosticChannel::new(10);
    assert_eq!(channel.len(), 0);
    assert!(channel.is_listening());
    assert_eq!(channel.receive(), None);
}

#[test]
fn lines_are_received_in_the_order_sent() {
    let mut channel = DiagnosticChannel::new(10);
    assert!(channel.try_send(out("one")));
    assert!(channel.try_send(out("two")));
    assert!(channel.try_send(out("three")));
    assert_eq!(channel.len(), 3);
    assert_eq!(channel.receive(), Some(out("one")));
    assert_eq!(channel.receive(), Some(out("two")));
    assert_eq!(channel.receive(), Some(out("three")));
    assert_eq!(channel.receive(), None);
}

#[test]
fn a_full_channel_drops_the_line() {
    let mut channel = DiagnosticChannel::new(2);
    assert!(channel.try_send(out("one")));
    assert!(channel.try_send(out("two")));
    assert!(!channel.try_send(out("three")));
    assert_eq!(channel.len(), 2);
    assert_eq!(channel.receive(), Some(out("one")));
    assert!(channel.try_send(out("four")));
    assert_eq!(channel.receive(), Some(out("two")));
    assert_eq!(channel.receive(), Some(out("four")));
}

#[test]
fn a_channel_without_room_takes_nothing() {
    let mut channel = DiagnosticChannel::new(0);
    assert!(!channel.try_send(out("one")));
    assert_eq!(channel.receive(), None);
}

#[test]
fn after_the_probe_stopped_listening_lines_are_dropped() {
    let mut channel = DiagnosticChannel::new(10);
    assert!(channel.try_send(out("one")));
    channel.stop_listening();
    assert!(!channel.is_listening());
    assert_eq!(channel.len(), 0);
    assert!(!channel.try_send(out("two")));
    assert_eq!(channel.receive(), None);
}

#[test]
fn deliver_logs_a_line_even_if_the_channel_drops_it() {
    let mut channel = DiagnosticChannel::new(1);
    let first = channel.deliver("rclone", out("one"));
    assert!(first.sent);
    assert_eq!(first.record, "[stdout] one\n");
    assert_eq!(first.echo, "[stdout] rclone: one");
    let second = channel.deliver("rclone", DiagnosticLine::new(Stream::Stderr, "two"));
    assert!(!second.sent);
    assert_eq!(second.record, "[stderr] two\n");
    assert_eq!(second.echo, "[stderr] rclone: two");
    channel.stop_listening();
    let third = channel.deliver("rclone", out("three"));
    assert!(!third.sent);
    assert_eq!(third.record, "[stdout] three\n");
}
