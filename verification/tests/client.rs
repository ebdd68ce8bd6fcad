use rperf::client::session::{
    AliveStep, ClientFailure, ClientPhase, ClientSession, ClientSettings, ClosingStep,
    ConnectionStep, Opening, ReportStep, StreamReport, TestStep, WaitingStep, CLOSING_PAUSE_MILLIS,
};
use rperf::client::summary::{can_report, report_configurations, report_run, set_stream_ports};
use rperf::client::{
    configured_streams, destination, prepare_test_results, read_omit_seconds, read_port,
    DisplayMode, OptionError,
};
use rperf::protocol::messaging::{prepare_connect, SenderPlan};
use rperf::protocol::results::{TestFamily, TestResults};
use rperf::utils::text::decimal_text;
use serde_json::Value;

fn json(text: &str) -> Value {
    serde_json::from_str(text).unwrap()
}

fn settings(stream_count: usize) -> ClientSettings {
    ClientSettings { is_udp: false, reverse: false, display: DisplayMode::Megabit, stream_count }
}

/// A session whose streams run.
fn testing(stream_count: usize) -> ClientSession {
    let mut session = ClientSession::new(settings(stream_count));
    assert!(session.on_connection(&json(r#"{"kind":"connect-ready"}"#)).is_ok());
    assert_eq!(session.on_alive(true), Ok(AliveStep::SendBegin));
    assert_eq!(session.on_alive(true), Ok(AliveStep::Receive));
    assert_eq!(session.on_waiting_message(&json(r#"{"kind":"ready"}"#)), WaitingStep::Ready);
    assert_eq!(session.on_alive(true), Ok(AliveStep::StartStreams));
    assert_eq!(session.on_alive(true), Ok(AliveStep::Receive));
    assert_eq!(session.phase(), ClientPhase::Testing);
    session
}

#[test]
fn formats_select_the_display() {
    assert_eq!(DisplayMode::from_format("json"), DisplayMode::Json);
    assert_eq!(DisplayMode::from_format("megabit"), DisplayMode::Megabit);
    assert_eq!(DisplayMode::from_format("megabyte"), DisplayMode::Megabyte);
    assert_eq!(DisplayMode::from_format("furlong"), DisplayMode::Json);
    assert!(DisplayMode::Json.is_json() && !DisplayMode::Json.is_bit());
    assert!(!DisplayMode::Megabit.is_json() && DisplayMode::Megabit.is_bit());
    assert!(!DisplayMode::Megabyte.is_json() && !DisplayMode::Megabyte.is_bit());
}

#[test]
fn options_are_read() {
    assert_eq!(read_port("5199").unwrap(), 5199);
    assert_eq!(read_port("+7").unwrap(), 7);
    assert!(matches!(read_port("65536"), Err(OptionError::Port(_))));
    assert!(matches!(read_port(""), Err(OptionError::Port(_))));
    assert_eq!(read_omit_seconds("3").unwrap(), 3);
    assert!(matches!(read_omit_seconds("3.5"), Err(OptionError::Omit(_))));
}

#[test]
fn a_written_port_reads_back() {
    for port in [0, 9, 10, 5199, 65535] {
        assert_eq!(read_port(&decimal_text(port)).unwrap(), port);
    }
}

#[test]
fn a_destination_names_address_and_port() {
    assert_eq!(destination("example.org", 5199), "example.org:5199");
    assert_eq!(destination("::1", 0), "::1:0");
}

#[test]
fn a_configuration_tells_its_streams() {
    assert_eq!(configured_streams(&json(r#"{"streams":4}"#)), Some(4));
    assert_eq!(configured_streams(&json(r#"{"streams":-4}"#)), None);
    assert_eq!(configured_streams(&json(r#"{"streams":4.5}"#)), None);
    assert_eq!(configured_streams(&json(r#"{}"#)), None);
}

#[test]
fn results_wait_for_each_stream() {
    let mut results = prepare_test_results(true, 3);
    assert_eq!(results.family(), TestFamily::Udp);
    assert_eq!(results.count_in_progress_streams(), 3);
    assert_eq!(results.count_in_progress_streams_server(), 3);
    assert!(!results.is_success());
    results.mark_stream_done(0, true);
    results.mark_stream_done(0, true);
    results.mark_stream_done_server(1);
    assert_eq!(results.count_in_progress_streams(), 2);
    assert_eq!(results.count_in_progress_streams_server(), 2);
    results.mark_stream_done(1, true);
    results.mark_stream_done(2, true);
    assert!(results.is_success());
    assert_eq!(prepare_test_results(false, 0).family(), TestFamily::Tcp);
    assert!(prepare_test_results(false, 0).is_success());
    let mut one = TestResults::new(TestFamily::Tcp);
    one.prepare_index(9);
    one.mark_stream_done(9, false);
    assert_eq!(one.count_in_progress_streams(), 0);
    assert!(!one.is_success());
}

#[test]
fn the_direction_decides_the_opening() {
    assert_eq!(ClientSession::new(settings(2)).opening(), Opening::Forward);
    let reverse = ClientSettings { reverse: true, ..settings(2) };
    assert_eq!(ClientSession::new(reverse).opening(), Opening::Reverse { streams: 2 });
}

#[test]
fn the_servers_ports_become_senders() {
    let mut session = ClientSession::new(settings(2));
    match session.on_connection(&prepare_connect(&vec![6000, 6001])) {
        Ok(ConnectionStep::Connect(plans)) => assert_eq!(
            plans,
            vec![
                SenderPlan { stream_idx: 0, port: Some(6000) },
                SenderPlan { stream_idx: 1, port: Some(6001) },
            ]
        ),
        other => panic!("{:?}", other),
    }
    assert_eq!(session.phase(), ClientPhase::Connected);
    let mut session = ClientSession::new(settings(2));
    match session.on_connection(&json(r#"{"kind":"connect","stream_ports":[65536,"x",-1]}"#)) {
        Ok(ConnectionStep::Connect(plans)) => {
            assert_eq!(plans[0].port, Some(0));
            assert_eq!(plans[1].port, None);
            assert_eq!(plans[2].port, Some(65535));
        }
        other => panic!("{:?}", other),
    }
}

#[test]
fn a_bad_connection_answer_fails_or_is_passed_over() {
    let answers = [
        (r#"{"kind":"connect"}"#, Some(ClientFailure::MissingStreamPorts)),
        (r#"{"kind":"connect","stream_ports":5}"#, Some(ClientFailure::StreamPortsNotArray)),
        (r#"{"kind":"other"}"#, None),
        (r#"{"kind":1}"#, None),
        (r#"{}"#, None),
    ];
    for (text, failure) in answers {
        let mut session = ClientSession::new(settings(1));
        let step = session.on_connection(&json(text));
        assert_eq!(step.err(), failure);
        let phase = if failure.is_some() { ClientPhase::Aborted } else { ClientPhase::Connected };
        assert_eq!(session.phase(), phase);
    }
    let mut session = ClientSession::new(settings(1));
    assert!(matches!(session.on_connection(&json("{}")), Ok(ConnectionStep::Malformed)));
    let mut session = ClientSession::new(settings(1));
    assert!(matches!(
        session.on_connection(&json(r#"{"kind":"other"}"#)),
        Ok(ConnectionStep::Unexpected)
    ));
}

#[test]
fn a_shutdown_before_the_test_skips_it() {
    let mut session = ClientSession::new(settings(1));
    assert!(session.on_connection(&json(r#"{"kind":"connect-ready"}"#)).is_ok());
    assert_eq!(session.on_alive(false), Ok(AliveStep::Close));
    assert_eq!(session.phase(), ClientPhase::Closing);
}

#[test]
fn a_shutdown_while_waiting_fails_the_run() {
    let mut session = ClientSession::new(settings(1));
    assert!(session.on_connection(&json(r#"{"kind":"connect-ready"}"#)).is_ok());
    assert_eq!(session.on_alive(true), Ok(AliveStep::SendBegin));
    assert_eq!(session.on_waiting_message(&json(r#"{"kind":"x"}"#)), WaitingStep::Unexpected);
    assert_eq!(session.on_waiting_message(&json(r#"{"kind":1}"#)), WaitingStep::Malformed);
    assert_eq!(session.on_alive(false), Err(ClientFailure::ShutdownAwaitingReady));
    assert_eq!(session.phase(), ClientPhase::Aborted);
}

#[test]
fn a_test_completes_when_all_streams_have_ended() {
    let mut session = testing(2);
    assert_eq!(session.on_report(StreamReport::Done(0)), ReportStep::Waiting);
    let done_1 = json(r#"{"kind":"done","stream_idx":1}"#);
    assert_eq!(session.on_test_message(&done_1), TestStep::StreamEnded);
    assert_eq!(session.on_report(StreamReport::Done(1)), ReportStep::StartKillTimer);
    let done_0 = json(r#"{"kind":"done","stream_idx":0}"#);
    assert_eq!(session.on_test_message(&done_0), TestStep::Completed);
    assert_eq!(session.phase(), ClientPhase::Closing);
    assert_eq!(session.outcome(), Ok(()));
}

#[test]
fn a_last_client_report_does_not_complete_a_test() {
    let mut session = testing(1);
    let done = json(r#"{"kind":"done","stream_idx":0}"#);
    assert_eq!(session.on_test_message(&done), TestStep::StreamEnded);
    assert_eq!(session.on_report(StreamReport::Done(0)), ReportStep::AllReported);
    assert_eq!(session.phase(), ClientPhase::Testing);
}

#[test]
fn a_failure_at_the_server_ends_the_stream_and_fails_the_run() {
    let mut session = testing(1);
    let failed = json(r#"{"kind":"failed","stream_idx":256}"#);
    assert_eq!(session.on_test_message(&failed), TestStep::Completed);
    assert_eq!(session.outcome(), Err(ClientFailure::TestIncomplete));
}

#[test]
fn a_failure_at_the_client_fails_the_run() {
    let mut session = testing(1);
    assert_eq!(session.on_report(StreamReport::Failed(0)), ReportStep::StartKillTimer);
    let done = json(r#"{"kind":"done","stream_idx":0}"#);
    assert_eq!(session.on_test_message(&done), TestStep::Completed);
    assert_eq!(session.outcome(), Err(ClientFailure::TestIncomplete));
}

#[test]
fn intervals_are_shown_unless_the_display_is_json() {
    let mut session = testing(1);
    let send = json(r#"{"kind":"send"}"#);
    assert_eq!(session.on_test_message(&send), TestStep::RecordInterval { show: true });
    assert_eq!(
        session.on_report(StreamReport::Interval),
        ReportStep::RecordInterval { show: true }
    );
    let quiet = ClientSettings { display: DisplayMode::Json, ..settings(1) };
    let mut session = ClientSession::new(quiet);
    assert_eq!(
        session.on_report(StreamReport::Interval),
        ReportStep::RecordInterval { show: false }
    );
}

#[test]
fn a_message_without_sense_stops_the_test() {
    for text in [
        r#"{"kind":"done"}"#,
        r#"{"kind":"failed","stream_idx":"0"}"#,
        r#"{"kind":"begin"}"#,
        r#"{"kind":2}"#,
        r#"{}"#,
    ] {
        let mut session = testing(1);
        assert_eq!(session.on_test_message(&json(text)), TestStep::Stopped);
        assert_eq!(session.phase(), ClientPhase::Closing);
        assert_eq!(session.outcome(), Err(ClientFailure::TestIncomplete));
    }
    let mut session = testing(1);
    assert_eq!(session.on_test_message(&json(r#"{"kind":"ready"}"#)), TestStep::Ignored);
    assert_eq!(session.phase(), ClientPhase::Testing);
}

#[test]
fn a_lost_connection_fails_the_run() {
    let mut session = ClientSession::new(settings(1));
    assert_eq!(session.on_receive_failure(), Some(ClientFailure::NoConnection));
    let mut session = ClientSession::new(settings(1));
    assert!(session.on_connection(&json(r#"{"kind":"connect-ready"}"#)).is_ok());
    assert_eq!(session.on_alive(true), Ok(AliveStep::SendBegin));
    assert_eq!(session.on_receive_failure(), Some(ClientFailure::ReadyLost));
    let mut session = testing(1);
    assert_eq!(session.on_receive_failure(), Some(ClientFailure::ReceiveFailed));
    assert_eq!(session.phase(), ClientPhase::Aborted);
}

#[test]
fn failures_have_texts() {
    let texts = [
        (
            ClientFailure::NoConnection,
            Some("Failed to receive connection payload from server"),
        ),
        (
            ClientFailure::MissingStreamPorts,
            Some("Server response missing 'stream_ports' field"),
        ),
        (ClientFailure::StreamPortsNotArray, Some("'stream_ports' is not an array")),
        (
            ClientFailure::ShutdownAwaitingReady,
            Some("Shutdown requested while waiting for server ready signal"),
        ),
        (ClientFailure::ReadyLost, None),
        (ClientFailure::ReceiveFailed, Some("Receive error")),
        (
            ClientFailure::TestIncomplete,
            Some("Test incomplete: some streams failed or timed out"),
        ),
    ];
    for (failure, text) in texts {
        assert_eq!(failure.message(), text);
    }
}

#[test]
fn a_zero_buffer_is_not_reported() {
    let mut upload = json(
        r#"{"family":"tcp","kind":"configuration","length":1024,"role":"upload","streams":2,
            "test_id":[1],"stream_ports":[5],"send_buffer":0,"duration":10.0}"#,
    );
    let mut download = json(
        r#"{"family":"tcp","kind":"configuration","length":1024,"role":"download","streams":2,
            "test_id":[1],"receive_buffer":65536}"#,
    );
    let upload = upload.as_object_mut().unwrap();
    let download = download.as_object_mut().unwrap();
    assert!(can_report(upload, download));
    let common = report_configurations(upload, download);
    assert_eq!(common, json(r#"{"family":"tcp","length":1024,"streams":2}"#));
    assert_eq!(Value::Object(upload.clone()), json(r#"{"duration":10.0}"#));
    assert_eq!(Value::Object(download.clone()), json(r#"{"receive_buffer":65536}"#));
}

#[test]
fn an_absent_member_is_reported_as_null() {
    let mut upload = json(r#"{"send_buffer":1}"#);
    let mut download = json(r#"{"receive_buffer":0}"#);
    let upload = upload.as_object_mut().unwrap();
    let download = download.as_object_mut().unwrap();
    let common = report_configurations(upload, download);
    assert_eq!(common, json(r#"{"family":null,"length":null,"streams":null}"#));
    assert_eq!(Value::Object(upload.clone()), json(r#"{"send_buffer":1}"#));
    assert!(download.is_empty());
    assert!(!can_report(download, upload));
}

#[test]
fn the_clients_ports_go_into_its_configuration() {
    let mut upload = json(r#"{"kind":"configuration","stream_ports":[]}"#);
    set_stream_ports(upload.as_object_mut().unwrap(), &vec![1, 2]);
    assert_eq!(upload, json(r#"{"kind":"configuration","stream_ports":[1,2]}"#));
}

#[test]
fn a_run_is_reported() {
    assert_eq!(
        report_run(3, true, false),
        json(r#"{"omit_seconds":3,"ip_version":6,"reverse":false}"#)
    );
    assert_eq!(
        report_run(0, false, true),
        json(r#"{"omit_seconds":0,"ip_version":4,"reverse":true}"#)
    );
}

#[test]
fn a_session_that_began_says_its_end_twice() {
    let mut session = testing(1);
    assert_eq!(session.on_alive(false), Ok(AliveStep::Close));
    assert_eq!(session.phase(), ClientPhase::Closing);
    assert_eq!(
        session.closing(),
        vec![
            ClosingStep::SendEnd,
            ClosingStep::Disconnect,
            ClosingStep::SendEnd,
            ClosingStep::Pause,
            ClosingStep::Disconnect,
        ]
    );
    assert_eq!(CLOSING_PAUSE_MILLIS, 250);
}

#[test]
fn a_session_that_never_began_says_its_end_once() {
    let mut session = ClientSession::new(settings(1));
    assert!(session.on_connection(&json(r#"{"kind":"connect-ready"}"#)).is_ok());
    assert_eq!(session.on_alive(false), Ok(AliveStep::Close));
    assert_eq!(
        session.closing(),
        vec![ClosingStep::SendEnd, ClosingStep::Pause, ClosingStep::Disconnect]
    );
}

#[test]
fn json_is_put_out_as_it_is_and_other_reports_as_lines() {
    assert_eq!(DisplayMode::Json.output_text("{}"), "{}");
    assert_eq!(DisplayMode::Megabit.output_text("fast"), "fast\n");
    assert_eq!(DisplayMode::Megabyte.output_text(""), "\n");
}
