use rperf::protocol::communication::{
    encode_frame, frame_message, Awaiting, FrameReceiver, MessageError, PollOutcome,
    ReceiveFailure,
};
use rperf::protocol::messaging::{
    message_kind, message_text_kind, prepare_begin, prepare_connect, prepare_connect_ready,
    prepare_done, prepare_end, prepare_failed, prepare_ready, stream_index,
};
use serde_json::Value;

fn json(text: &str) -> Value {
    serde_json::from_str(text).unwrap()
}

/// Brings a receiver to where it reads.
fn advance(receiver: &mut FrameReceiver) {
    receiver.on_alive(true);
    assert_eq!(receiver.awaiting(), Awaiting::Poll);
    receiver.on_poll(PollOutcome::Readable);
    assert_eq!(receiver.awaiting(), Awaiting::Read);
}

/// Feeds a receiver from `wire`, at most `step` bytes at a time, and gives how
/// many were taken.
fn feed(receiver: &mut FrameReceiver, wire: &[u8], step: usize) -> usize {
    let mut at = 0;
    while receiver.awaiting() != Awaiting::Received {
        if receiver.awaiting() == Awaiting::Alive {
            advance(receiver);
        }
        let count = step.min(receiver.missing()).min(wire.len() - at);
        receiver.on_data(&wire[at..at + count]);
        at += count;
    }
    at
}

#[test]
fn a_frame_starts_with_its_length() {
    assert_eq!(encode_frame(b"abc"), vec![0, 3, b'a', b'b', b'c']);
    let long = vec![7u8; 0x1234];
    let wire = encode_frame(&long);
    assert_eq!(&wire[..2], &[0x12, 0x34]);
    assert_eq!(&wire[2..], &long[..]);
    assert_eq!(encode_frame(&[]), vec![0, 0]);
}

#[test]
fn the_length_of_a_long_message_is_reduced() {
    let wire = encode_frame(&vec![1u8; 65536 + 5]);
    assert_eq!(&wire[..2], &[0, 5]);
    assert_eq!(wire.len(), 65536 + 5 + 2);
}

#[test]
fn a_message_is_framed_as_its_json_text() {
    let wire = frame_message(&json(r#"{"kind":"ready"}"#)).unwrap();
    assert_eq!(&wire[..2], &[0, 16]);
    assert_eq!(&wire[2..], br#"{"kind":"ready"}"#);
}

#[test]
fn a_message_comes_back_in_whatever_pieces() {
    let message = json(r#"{"kind":"done","stream_idx":3,"text":"é\n"}"#);
    let mut wire = frame_message(&message).unwrap();
    let length = wire.len();
    wire.extend_from_slice(b"more");
    for step in [1, 2, 3, 7, 1000] {
        let mut receiver = FrameReceiver::new();
        assert_eq!(feed(&mut receiver, &wire, step), length);
        assert_eq!(receiver.decode().unwrap(), message);
    }
}

#[test]
fn a_payload_that_is_no_json_is_an_error() {
    let mut receiver = FrameReceiver::new();
    feed(&mut receiver, &encode_frame(b"{oops"), 100);
    assert!(matches!(receiver.decode(), Err(MessageError::Undecodable(_))));
}

#[test]
fn an_ended_run_ends_the_wait() {
    let mut receiver = FrameReceiver::new();
    receiver.on_alive(false);
    assert_eq!(receiver.awaiting(), Awaiting::Failed(ReceiveFailure::ShutdownRequested));
}

#[test]
fn an_idle_poll_leads_back_to_the_run_state() {
    for outcome in [PollOutcome::Idle, PollOutcome::Interrupted] {
        let mut receiver = FrameReceiver::new();
        receiver.on_alive(true);
        receiver.on_poll(outcome);
        assert_eq!(receiver.awaiting(), Awaiting::Alive);
    }
    let mut receiver = FrameReceiver::new();
    advance(&mut receiver);
    receiver.on_would_block();
    assert_eq!(receiver.awaiting(), Awaiting::Alive);
}

#[test]
fn a_closed_connection_fails_by_the_run_state() {
    for (alive, failure) in [
        (true, ReceiveFailure::ConnectionLost),
        (false, ReceiveFailure::ShutdownDuringReceive),
    ] {
        let mut receiver = FrameReceiver::new();
        advance(&mut receiver);
        receiver.on_closed();
        assert_eq!(receiver.awaiting(), Awaiting::AliveAfterClose);
        receiver.on_alive(alive);
        assert_eq!(receiver.awaiting(), Awaiting::Failed(failure));
    }
}

#[test]
fn an_empty_frame_never_completes() {
    let mut receiver = FrameReceiver::new();
    advance(&mut receiver);
    assert_eq!(receiver.missing(), 2);
    receiver.on_data(&[0, 0]);
    assert_eq!(receiver.awaiting(), Awaiting::Alive);
    advance(&mut receiver);
    assert_eq!(receiver.missing(), 0);
    receiver.on_closed();
    receiver.on_alive(true);
    assert_eq!(receiver.awaiting(), Awaiting::Failed(ReceiveFailure::ConnectionLost));
}

#[test]
fn the_run_state_is_asked_between_length_and_payload() {
    let mut receiver = FrameReceiver::new();
    advance(&mut receiver);
    receiver.on_data(&[1]);
    assert_eq!(receiver.awaiting(), Awaiting::Read);
    assert_eq!(receiver.missing(), 1);
    receiver.on_data(&[4]);
    assert_eq!(receiver.awaiting(), Awaiting::Alive);
    assert_eq!(receiver.missing(), 0x104);
}

#[test]
fn failures_are_reported_by_name() {
    assert_eq!(ReceiveFailure::ConnectionLost.message(), "connection lost");
    assert_eq!(ReceiveFailure::ShutdownDuringReceive.message(), "shutdown during receive");
    assert_eq!(ReceiveFailure::ShutdownRequested.message(), "shutdown requested or timeout");
}

#[test]
fn messages_say_their_kind() {
    assert_eq!(prepare_begin(), json(r#"{"kind":"begin"}"#));
    assert_eq!(prepare_end(), json(r#"{"kind":"end"}"#));
    assert_eq!(prepare_ready(), json(r#"{"kind":"ready"}"#));
    assert_eq!(prepare_connect_ready(), json(r#"{"kind":"connect-ready"}"#));
    assert_eq!(prepare_done(0), json(r#"{"kind":"done","stream_idx":0}"#));
    assert_eq!(prepare_failed(7), json(r#"{"kind":"failed","stream_idx":7}"#));
    assert_eq!(
        prepare_connect(&vec![5200, 65535]),
        json(r#"{"kind":"connect","stream_ports":[5200,65535]}"#)
    );
}

#[test]
fn kinds_are_read() {
    assert_eq!(message_kind(&json(r#"{"kind":"x"}"#)), Some("x"));
    assert_eq!(message_kind(&json(r#"{"kind":7}"#)), Some(""));
    assert_eq!(message_kind(&json(r#"{}"#)), None);
    assert_eq!(message_kind(&json(r#"[1]"#)), None);
    assert_eq!(message_text_kind(&json(r#"{"kind":"x"}"#)), Some("x"));
    assert_eq!(message_text_kind(&json(r#"{"kind":7}"#)), None);
}

#[test]
fn a_stream_index_has_eight_bits() {
    assert_eq!(stream_index(3), 3);
    assert_eq!(stream_index(257), 1);
}

#[test]
fn a_row_of_messages_comes_back_in_order() {
    let messages = [
        prepare_begin(),
        prepare_connect(&vec![1, 2, 3]),
        json(r#"{"kind":"receive","bytes":18446744073709551615,"least":-9223372036854775808}"#),
        json("{}"),
    ];
    let mut wire: Vec<u8> = Vec::new();
    for message in &messages {
        wire.extend_from_slice(&frame_message(message).unwrap());
    }
    for step in [1, 3, 1000] {
        let mut at = 0;
        for message in &messages {
            let mut receiver = FrameReceiver::new();
            let taken = feed(&mut receiver, &wire[at..], step);
            assert_eq!(taken, frame_message(message).unwrap().len());
            at += taken;
            assert_eq!(receiver.decode().unwrap(), *message);
        }
        assert_eq!(at, wire.len());
    }
}

#[test]
fn every_value_has_a_text() {
    for (text, length) in [("null", 4), ("true", 4), ("\"\"", 2), ("[]", 2), ("{}", 2), ("0.5", 3)] {
        let wire = frame_message(&json(text)).unwrap();
        assert_eq!(&wire[..2], &[0, length]);
        assert_eq!(&wire[2..], text.as_bytes());
    }
}

#[test]
fn a_wait_between_pieces_changes_nothing() {
    let wire = frame_message(&prepare_ready()).unwrap();
    let mut receiver = FrameReceiver::new();
    let mut at = 0;
    while receiver.awaiting() != Awaiting::Received {
        if receiver.awaiting() == Awaiting::Read {
            receiver.on_would_block();
        }
        receiver.on_alive(true);
        receiver.on_poll(PollOutcome::Idle);
        advance(&mut receiver);
        receiver.on_data(&wire[at..at + 1]);
        at += 1;
    }
    assert_eq!(at, wire.len());
    assert_eq!(receiver.decode().unwrap(), prepare_ready());
}
