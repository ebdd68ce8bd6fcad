use rperf::protocol::messaging::{prepare_begin, prepare_end, SenderPlan};
use rperf::protocol::results::TestFamily;
use rperf::server::session::{
    message_is_readable, reply_to, ReceivePlan, ServerSession, ServerStep,
};
use rperf::server::{OptionError, ServerOptions};
use serde_json::Value;

fn json(text: &str) -> Value {
    serde_json::from_str(text).unwrap()
}

fn step_on(text: &str) -> ServerStep {
    let message = json(text);
    assert!(message_is_readable(&message));
    let mut session = ServerSession::new();
    let step = session.on_message(&message);
    assert!(!session.has_ended());
    step
}

#[test]
fn server_options_are_read() {
    let options = ServerOptions::read("0", "5199").unwrap();
    assert_eq!(options, ServerOptions { client_limit: 0, port: 5199 });
    assert!(matches!(ServerOptions::read("x", "y"), Err(OptionError::ClientLimit(_))));
    assert!(matches!(ServerOptions::read("1", "70000"), Err(OptionError::Port(_))));
}

#[test]
fn a_download_configuration_asks_for_receivers() {
    match step_on(r#"{"kind":"configuration","role":"download","family":"udp","streams":3,"receive_buffer":9}"#) {
        ServerStep::Receive(plan) => assert_eq!(
            plan,
            ReceivePlan { family: TestFamily::Udp, stream_count: 3, receive_buffer: Some(9) }
        ),
        other => panic!("{:?}", other),
    }
}

#[test]
fn a_bare_configuration_asks_for_one_tcp_receiver() {
    match step_on(r#"{"kind":"configuration"}"#) {
        ServerStep::Receive(plan) => assert_eq!(
            plan,
            ReceivePlan { family: TestFamily::Tcp, stream_count: 1, receive_buffer: None }
        ),
        other => panic!("{:?}", other),
    }
}

#[test]
fn an_upload_configuration_asks_for_senders() {
    match step_on(r#"{"kind":"configuration","role":"upload","stream_ports":[7,"x"],"send_buffer":4}"#) {
        ServerStep::Send(plan) => {
            assert_eq!(plan.family, TestFamily::Tcp);
            assert_eq!(
                plan.senders,
                vec![
                    SenderPlan { stream_idx: 0, port: Some(7) },
                    SenderPlan { stream_idx: 1, port: None },
                ]
            );
            assert_eq!(plan.send_buffer, Some(4));
        }
        other => panic!("{:?}", other),
    }
    match step_on(r#"{"kind":"configuration","role":"upload","family":"udp","stream_ports":["x"]}"#) {
        ServerStep::Send(plan) => {
            assert_eq!(plan.senders, vec![SenderPlan { stream_idx: 0, port: Some(0) }]);
        }
        other => panic!("{:?}", other),
    }
}

#[test]
fn unreadable_messages_are_told_apart() {
    for text in [
        r#"{"kind":1}"#,
        r#"{"kind":"configuration","role":1}"#,
        r#"{"kind":"configuration","family":null}"#,
        r#"{"kind":"configuration","streams":"2"}"#,
        r#"{"kind":"configuration","streams":-1}"#,
        r#"{"kind":"configuration","role":"upload"}"#,
        r#"{"kind":"configuration","role":"upload","stream_ports":1}"#,
    ] {
        assert!(!message_is_readable(&json(text)), "{}", text);
    }
    for text in [r#"{}"#, r#"[]"#, r#"{"kind":"x"}"#, r#"{"kind":"configuration"}"#] {
        assert!(message_is_readable(&json(text)), "{}", text);
    }
}

#[test]
fn configurations_do_not_start_streams() {
    let mut session = ServerSession::new();
    let configuration = json(r#"{"kind":"configuration","streams":0}"#);
    assert!(matches!(session.on_message(&configuration), ServerStep::Receive(_)));
    assert!(matches!(session.on_message(&configuration), ServerStep::Receive(_)));
    assert!(matches!(session.on_message(&prepare_begin()), ServerStep::Start));
}

#[test]
fn a_second_begin_ends_the_session() {
    let mut session = ServerSession::new();
    assert!(matches!(session.on_message(&prepare_begin()), ServerStep::Start));
    assert!(!session.has_ended());
    assert!(matches!(session.on_message(&prepare_begin()), ServerStep::DuplicateBegin));
    assert!(session.has_ended());
}

#[test]
fn an_end_ends_the_session() {
    let mut session = ServerSession::new();
    assert!(matches!(session.on_message(&prepare_end()), ServerStep::End));
    assert!(session.has_ended());
}

#[test]
fn an_unknown_message_ends_the_session() {
    for text in [r#"{"kind":"ready"}"#, r#"{"other":1}"#, r#"3"#] {
        let mut session = ServerSession::new();
        assert!(matches!(session.on_message(&json(text)), ServerStep::Invalid));
        assert!(session.has_ended());
    }
}

#[test]
fn a_session_goes_on_while_the_run_does_and_it_has_not_ended() {
    let mut session = ServerSession::new();
    assert!(session.goes_on(true));
    assert!(!session.goes_on(false));
    session.on_message(&prepare_end());
    assert!(!session.goes_on(true));
    assert!(!session.goes_on(false));
}

#[test]
fn each_step_has_its_reply() {
    let ports = vec![5200, 5201];
    let receive = step_on(r#"{"kind":"configuration","streams":2}"#);
    assert_eq!(
        reply_to(&receive, &ports),
        Some(json(r#"{"kind":"connect","stream_ports":[5200,5201]}"#))
    );
    let send = step_on(r#"{"kind":"configuration","role":"upload","stream_ports":[7]}"#);
    assert_eq!(reply_to(&send, &ports), Some(json(r#"{"kind":"connect-ready"}"#)));
    assert_eq!(reply_to(&ServerStep::Start, &ports), Some(json(r#"{"kind":"ready"}"#)));
    assert_eq!(
        reply_to(&ServerStep::End, &ports),
        Some(json(r#"{"kind":"done","stream_idx":0}"#))
    );
    assert_eq!(reply_to(&ServerStep::DuplicateBegin, &ports), None);
    assert_eq!(reply_to(&ServerStep::Invalid, &ports), None);
}
