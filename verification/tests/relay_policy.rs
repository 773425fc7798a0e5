use voice_gateway::relay::{
    relay_downstream_events, relay_upstream_events, teardown_frame, Cause, CloseFrame, Frame,
    ReadEvent,
};
use voice_gateway::upstream::{connect_failure_message, connecting_outcome};

fn text(s: &str) -> ReadEvent {
    ReadEvent::Frame(Frame::Text(String::from(s)))
}

fn binary(b: &[u8]) -> ReadEvent {
    ReadEvent::Frame(Frame::Binary(b.to_vec()))
}

fn close(code: u16, reason: &str) -> ReadEvent {
    ReadEvent::Frame(Frame::Close(Some(CloseFrame { code, reason: String::from(reason) })))
}

#[test]
fn upstream_data_frames_arrive_byte_identical_and_in_order() {
    let events = vec![
        text("one"),
        ReadEvent::Frame(Frame::Ping(vec![1, 2])),
        text("two"),
        binary(&[9, 8, 7]),
        ReadEvent::Frame(Frame::Pong(vec![3])),
    ];
    let (out, cause) = relay_upstream_events(events);
    assert_eq!(cause, None);
    assert_eq!(out.len(), 5);
    assert!(matches!(&out[0], Frame::Text(s) if s == "one"));
    assert!(matches!(&out[1], Frame::Ping(p) if p == &vec![1, 2]));
    assert!(matches!(&out[2], Frame::Text(s) if s == "two"));
    assert!(matches!(&out[3], Frame::Binary(b) if b == &vec![9, 8, 7]));
    assert!(matches!(&out[4], Frame::Pong(p) if p == &vec![3]));
}

#[test]
fn downstream_data_frames_arrive_byte_identical_and_in_order() {
    let events = vec![binary(&[0, 255]), text("hello"), binary(&[42])];
    let (out, cause) = relay_downstream_events(events);
    assert_eq!(cause, None);
    assert_eq!(out.len(), 3);
    assert!(matches!(&out[0], Frame::Binary(b) if b == &vec![0, 255]));
    assert!(matches!(&out[1], Frame::Text(s) if s == "hello"));
    assert!(matches!(&out[2], Frame::Binary(b) if b == &vec![42]));
}

#[test]
fn legal_upstream_close_passes_through_unchanged() {
    let (out, cause) = relay_upstream_events(vec![close(4000, "bye")]);
    assert_eq!(cause, Some(Cause::UpstreamClosed));
    assert_eq!(out.len(), 1);
    assert!(
        matches!(&out[0], Frame::Close(Some(c)) if c.code == 4000 && c.reason == "bye")
    );
}

#[test]
fn reserved_upstream_close_becomes_normal_closure() {
    let (out, cause) = relay_upstream_events(vec![close(1006, "")]);
    assert_eq!(cause, Some(Cause::UpstreamClosed));
    assert_eq!(out.len(), 1);
    assert!(
        matches!(&out[0], Frame::Close(Some(c)) if c.code == 1000 && c.reason.is_empty())
    );
}

#[test]
fn upstream_close_without_payload_becomes_normal_closure() {
    let (out, cause) = relay_upstream_events(vec![ReadEvent::Frame(Frame::Close(None))]);
    assert_eq!(cause, Some(Cause::UpstreamClosed));
    assert_eq!(out.len(), 1);
    assert!(
        matches!(&out[0], Frame::Close(Some(c)) if c.code == 1000 && c.reason.is_empty())
    );
}

#[test]
fn upstream_read_error_sends_normal_close_downstream() {
    let (out, cause) = relay_upstream_events(vec![text("partial"), ReadEvent::ReadError]);
    assert_eq!(cause, Some(Cause::UpstreamReadError));
    assert_eq!(out.len(), 2);
    assert!(
        matches!(&out[1], Frame::Close(Some(c)) if c.code == 1000 && c.reason.is_empty())
    );
}

#[test]
fn frames_after_a_close_are_not_relayed() {
    let (out, cause) = relay_upstream_events(vec![close(1001, "done"), text("late")]);
    assert_eq!(cause, Some(Cause::UpstreamClosed));
    assert_eq!(out.len(), 1);
    assert!(matches!(&out[0], Frame::Close(Some(_))));
}

#[test]
fn raw_frames_are_dropped_silently() {
    let (out, cause) = relay_upstream_events(vec![ReadEvent::Frame(Frame::Raw), text("x")]);
    assert_eq!(cause, None);
    assert_eq!(out.len(), 1);
    assert!(matches!(&out[0], Frame::Text(s) if s == "x"));
}

#[test]
fn client_close_is_not_forwarded_and_ends_the_loop() {
    let (out, cause) = relay_downstream_events(vec![text("hi"), close(4321, "whatever")]);
    assert_eq!(cause, Some(Cause::ClientClosed));
    assert_eq!(out.len(), 1);
    assert!(matches!(&out[0], Frame::Text(s) if s == "hi"));
}

#[test]
fn client_disconnect_tells_upstream_normal_closure_regardless_of_code() {
    for cause in [Cause::ClientClosed, Cause::DownstreamReadError] {
        let frame = teardown_frame(cause).expect("the upstream peer must be told");
        assert_eq!(frame.code, 1000);
        assert_eq!(frame.reason, "Client disconnected");
    }
}

#[test]
fn upstream_side_teardown_sends_nothing_more() {
    assert!(teardown_frame(Cause::UpstreamClosed).is_none());
    assert!(teardown_frame(Cause::UpstreamReadError).is_none());
}

#[test]
fn downstream_read_error_ends_loop_without_writes() {
    let (out, cause) = relay_downstream_events(vec![ReadEvent::ReadError]);
    assert_eq!(cause, Some(Cause::DownstreamReadError));
    assert!(out.is_empty());
}

#[test]
fn stream_end_counts_as_peer_closing() {
    let (out, cause) = relay_upstream_events(vec![ReadEvent::Ended]);
    assert_eq!(cause, Some(Cause::UpstreamClosed));
    assert!(out.is_empty());
    let (out2, cause2) = relay_downstream_events(vec![ReadEvent::Ended]);
    assert_eq!(cause2, Some(Cause::ClientClosed));
    assert!(out2.is_empty());
}

#[test]
fn connect_failure_notice_is_one_stable_structured_message() {
    let msg = connect_failure_message();
    let value: serde_json::Value = serde_json::from_str(&msg).expect("must be valid JSON");
    assert_eq!(
        value.get("code").and_then(|v| v.as_str()),
        Some("CONNECTION_FAILED")
    );
    assert_eq!(value.get("type").and_then(|v| v.as_str()), Some("Error"));
    assert!(value
        .get("description")
        .and_then(|v| v.as_str())
        .is_some());
}

#[test]
fn handshake_failure_yields_exactly_one_notice_and_no_relay() {
    let (notice, start_relay) = connecting_outcome(false);
    assert!(!start_relay);
    assert_eq!(notice.len(), 1);
    assert!(matches!(&notice[0], Frame::Text(s) if s == &connect_failure_message()));
}

#[test]
fn handshake_success_writes_nothing_and_starts_relaying() {
    let (notice, start_relay) = connecting_outcome(true);
    assert!(start_relay);
    assert!(notice.is_empty());
}
