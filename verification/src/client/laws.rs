//! What holds of a client's session, whatever comes in.

use vstd::prelude::*;

use crate::client::session::{
    after_alive, after_connection, after_report, after_server_report, after_waiting, alive_step,
    closing_steps, connection_reply, lost_step, report_step, reported_stream, test_step,
    waiting_step, AliveStep, ClientFailure, ClientModel, ClientPhase, ClientSession,
    ClientSettings, ClosingStep, ConnectionReply, ConnectionStep, Opening, ReportStep,
    StreamReport, TestStep, WaitingStep,
};
use crate::client::DisplayMode;
use crate::protocol::json::{holds, json_of, lacks, Json};
use crate::protocol::messaging::{
    connect_message, end_message, kind_message, kind_of, law_senders_follow_ports,
    lemma_words_differ, port_list, port_named, says_kind, sender_plans, text_kind_of, SenderPlan,
};
use crate::protocol::results::{Progress, TestFamily};

verus! {

/// Something that a session takes note of.
pub enum ClientInput {
    /// The server's answer to the configuration.
    Connection(Json),
    /// Whether the run goes on.
    Alive(bool),
    /// A message while the server's start is awaited.
    Waiting(Json),
    /// A message during the test.
    Test(Json),
    /// That no message could be received.
    ReceiveFailure,
    /// A stream's report.
    Report(StreamReport),
}

/// The state after an input. An input that is not asked for in the current
/// phase changes nothing.
pub open spec fn client_next(model: ClientModel, input: ClientInput) -> ClientModel {
    match input {
        ClientInput::Connection(message) => if model.phase == ClientPhase::Connecting {
            after_connection(model, message)
        } else {
            model
        },
        ClientInput::Alive(alive) => if model.phase == ClientPhase::Connected || model.phase
            == ClientPhase::AwaitingReady || model.phase == ClientPhase::Ready || model.phase
            == ClientPhase::Testing {
            after_alive(model, alive)
        } else {
            model
        },
        ClientInput::Waiting(message) => if model.phase == ClientPhase::AwaitingReady {
            after_waiting(model, message)
        } else {
            model
        },
        ClientInput::Test(message) => if model.phase == ClientPhase::Testing {
            test_step(model, message).0
        } else {
            model
        },
        ClientInput::ReceiveFailure => if model.phase == ClientPhase::Connecting || model.phase
            == ClientPhase::AwaitingReady || model.phase == ClientPhase::Testing {
            model.in_phase(lost_step(model).0)
        } else {
            model
        },
        ClientInput::Report(report) => after_report(model, report),
    }
}

/// The state of a session after a sequence of inputs.
pub open spec fn client_after(settings: ClientSettings, inputs: Seq<ClientInput>) -> ClientModel
    decreases inputs.len(),
{
    if inputs.len() == 0 {
        ClientModel::initial(settings)
    } else {
        client_next(client_after(settings, inputs.drop_last()), inputs.last())
    }
}

/// Whether an input is the server's notice that it has started.
pub open spec fn is_ready_notice(input: ClientInput) -> bool {
    match input {
        ClientInput::Waiting(message) => waiting_step(message) == WaitingStep::Ready,
        _ => false,
    }
}

/// Whether the server has been heard to have started.
pub open spec fn heard_ready(inputs: Seq<ClientInput>) -> bool {
    exists|i: int| 0 <= i < inputs.len() && is_ready_notice(#[trigger] inputs[i])
}

/// A session is complete only when no stream goes on, at the client or at the
/// server, and it then winds up.
pub proof fn law_complete_means_all_streams_ended(
    settings: ClientSettings,
    inputs: Seq<ClientInput>,
)
    ensures
        client_after(settings, inputs).complete ==> {
            &&& client_after(settings, inputs).progress.client_is_done()
            &&& client_after(settings, inputs).progress.server_is_done()
            &&& client_after(settings, inputs).phase == ClientPhase::Closing
        },
    decreases inputs.len(),
{
    if inputs.len() > 0 {
        law_complete_means_all_streams_ended(settings, inputs.drop_last());
    }
}

/// A connection that fails during the test fails the run.
pub proof fn law_lost_connection_fails_test(settings: ClientSettings, inputs: Seq<ClientInput>)
    requires
        client_after(settings, inputs).phase == ClientPhase::Testing,
    ensures
        lost_step(client_after(settings, inputs)) == (
            ClientPhase::Aborted,
            Some(ClientFailure::ReceiveFailed),
        ),
{
    law_complete_means_all_streams_ended(settings, inputs);
}

/// Streams are started only once the server has said that it has started.
pub proof fn law_streams_start_after_ready(settings: ClientSettings, inputs: Seq<ClientInput>)
    ensures
        client_after(settings, inputs).phase == ClientPhase::Ready || client_after(
            settings,
            inputs,
        ).phase == ClientPhase::Testing ==> heard_ready(inputs),
    decreases inputs.len(),
{
    if inputs.len() > 0 {
        let front = inputs.drop_last();
        law_streams_start_after_ready(settings, front);
        if heard_ready(front) {
            let i = choose|i: int| 0 <= i < front.len() && is_ready_notice(#[trigger] front[i]);
            assert(inputs[i] == front[i]);
        }
        if is_ready_notice(inputs.last()) {
            assert(inputs[inputs.len() - 1] == inputs.last());
        }
    }
}

/// A run that has been given up stays given up.
pub proof fn law_aborted_run_stays_aborted(model: ClientModel, input: ClientInput)
    requires
        model.phase == ClientPhase::Aborted,
    ensures
        client_next(model, input).phase == ClientPhase::Aborted,
{
}

/// A session that winds up does not take the test up again.
pub proof fn law_closing_run_stays_closing(model: ClientModel, input: ClientInput)
    requires
        model.phase == ClientPhase::Closing,
    ensures
        client_next(model, input).phase == ClientPhase::Closing,
{
}

/// A run in which a stream reported a failure is no success, whatever comes in
/// besides.
pub proof fn law_failed_stream_fails_run(
    settings: ClientSettings,
    inputs: Seq<ClientInput>,
    idx: u8,
)
    requires
        inputs.contains(ClientInput::Report(StreamReport::Failed(idx))),
    ensures
        client_after(settings, inputs).progress.failed.contains(idx),
        !client_after(settings, inputs).progress.is_success(),
    decreases inputs.len(),
{
    let front = inputs.drop_last();
    let failure = ClientInput::Report(StreamReport::Failed(idx));
    if inputs.last() != failure {
        let i = inputs.index_of(failure);
        assert(front[i] == failure);
        law_failed_stream_fails_run(settings, front, idx);
    }
    assert(client_after(settings, inputs).progress.failed.contains(idx));
}

/// A run in which the server reported a failure during the test is no success,
/// whatever comes in after that.
pub proof fn law_server_failure_fails_run(
    settings: ClientSettings,
    before: Seq<ClientInput>,
    message: Json,
    after: Seq<ClientInput>,
    idx: u8,
)
    requires
        client_after(settings, before).phase == ClientPhase::Testing,
        kind_of(message) == Some("failed"@),
        reported_stream(message) == Some(idx),
    ensures
        client_after(
            settings,
            before.push(ClientInput::Test(message)) + after,
        ).progress.failed.contains(idx),
        !client_after(
            settings,
            before.push(ClientInput::Test(message)) + after,
        ).progress.is_success(),
    decreases after.len(),
{
    let start = before.push(ClientInput::Test(message));
    let inputs = start + after;
    if after.len() == 0 {
        lemma_words_differ();
        assert(inputs =~= start);
        assert(start.drop_last() =~= before);
    } else {
        law_server_failure_fails_run(settings, before, message, after.drop_last(), idx);
        assert(inputs.drop_last() =~= start + after.drop_last());
        assert(inputs.last() == after.last());
    }
}

/// A run is a success only if each of its streams reported to have ended well.
pub proof fn law_success_needs_every_stream(
    settings: ClientSettings,
    inputs: Seq<ClientInput>,
    idx: u8,
)
    requires
        idx < settings.stream_count % 256,
        client_after(settings, inputs).progress.is_success(),
    ensures
        inputs.contains(ClientInput::Report(StreamReport::Done(idx))),
{
    lemma_each_stream_is_accounted_for(settings, inputs, idx);
}

/// Each stream goes on at the client, has failed, or has reported that it
/// ended well.
proof fn lemma_each_stream_is_accounted_for(
    settings: ClientSettings,
    inputs: Seq<ClientInput>,
    idx: u8,
)
    requires
        idx < settings.stream_count % 256,
    ensures
        ({
            let progress = client_after(settings, inputs).progress;
            ||| progress.pending.contains(idx)
            ||| progress.failed.contains(idx)
            ||| inputs.contains(ClientInput::Report(StreamReport::Done(idx)))
        }),
    decreases inputs.len(),
{
    if inputs.len() > 0 {
        let front = inputs.drop_last();
        let done = ClientInput::Report(StreamReport::Done(idx));
        lemma_each_stream_is_accounted_for(settings, front, idx);
        if front.contains(done) {
            assert(inputs[front.index_of(done)] == done);
        }
        if inputs.last() == done {
            assert(inputs[inputs.len() - 1] == done);
        }
    }
}

/// The server's offer of ports makes the client prepare a sender for each, in
/// order.
pub proof fn law_connect_message_is_understood(ports: Seq<u16>)
    ensures
        connection_reply(connect_message(ports)) == ConnectionReply::Connect(
            Seq::new(
                ports.len(),
                |i: int| SenderPlan { stream_idx: (i % 256) as u8, port: Some(ports[i]) },
            ),
        ),
{
    lemma_words_differ();
    let elements = port_list(ports);
    assert(sender_plans(elements, None) =~= Seq::new(
        ports.len(),
        |i: int| SenderPlan { stream_idx: (i % 256) as u8, port: Some(ports[i]) },
    ));
}

/// The server's notices that it has taken the client's ports and that it has
/// started are understood.
pub proof fn law_server_notices_are_understood()
    ensures
        connection_reply(kind_message("connect-ready"@)) == ConnectionReply::ConnectReady,
        waiting_step(kind_message("ready"@)) == WaitingStep::Ready,
{
    lemma_words_differ();
}

/// A further notice that the server has started changes nothing during the
/// test.
pub proof fn law_extra_ready_is_ignored(model: ClientModel)
    requires
        model.phase == ClientPhase::Testing,
    ensures
        test_step(model, kind_message("ready"@)) == (model, TestStep::Ignored),
{
    lemma_words_differ();
}

/// The report that the last stream has ended at the server completes a test
/// whose streams have all ended at the client.
pub proof fn law_last_server_report_completes_test(model: ClientModel, idx: u8)
    requires
        model.phase == ClientPhase::Testing,
        model.progress.client_is_done(),
        forall|other: u8| model.progress.pending_server.contains(other) ==> other == idx,
    ensures
        test_step(model, end_message("done"@, idx)).1 == TestStep::Completed,
        test_step(model, end_message("done"@, idx)).0 == (ClientModel {
            phase: ClientPhase::Closing,
            complete: true,
            progress: model.progress.done_server(idx),
            ..model
        }),
{
    lemma_words_differ();
    let message = end_message("done"@, idx);
    assert(reported_stream(message) == Some(idx));
    let progress = after_server_report(model.progress, idx, false);
    assert(progress.pending_server =~= Set::empty());
}

/// The server's reports on its streams are noted: one that is done has ended
/// there, and one that failed has failed and has ended on both sides.
pub proof fn law_server_reports_are_noted(model: ClientModel, idx: u8)
    requires
        model.phase == ClientPhase::Testing,
    ensures
        test_step(model, end_message("done"@, idx)).0.progress == model.progress.done_server(idx),
        test_step(model, end_message("failed"@, idx)).0.progress == model.progress.done(
            idx,
            false,
        ).done_server(idx),
{
    lemma_words_differ();
    assert(reported_stream(end_message("done"@, idx)) == Some(idx));
    assert(reported_stream(end_message("failed"@, idx)) == Some(idx));
}

/// When the last stream ends at the client, the kill timer starts exactly if
/// the server's streams go on.
pub proof fn law_kill_timer_starts_when_only_server_goes_on(model: ClientModel, idx: u8)
    requires
        forall|other: u8| model.progress.pending.contains(other) ==> other == idx,
    ensures
        report_step(model, StreamReport::Done(idx)) == ReportStep::StartKillTimer
            <==> !model.progress.server_is_done(),
        report_step(model, StreamReport::Failed(idx)) == ReportStep::StartKillTimer
            <==> !model.progress.server_is_done(),
{
    assert(model.progress.pending.remove(idx) =~= Set::empty());
}

/// Whether an input makes the client request the test.
pub open spec fn requests_test(model: ClientModel, input: ClientInput) -> bool {
    model.phase == ClientPhase::Connected && input == ClientInput::Alive(true)
}

/// How often a session requests the test upon a sequence of inputs.
pub open spec fn test_requests(settings: ClientSettings, inputs: Seq<ClientInput>) -> nat
    decreases inputs.len(),
{
    if inputs.len() == 0 {
        0
    } else {
        let front = inputs.drop_last();
        test_requests(settings, front) + if requests_test(
            client_after(settings, front),
            inputs.last(),
        ) {
            1nat
        } else {
            0nat
        }
    }
}

/// The test is requested at most once, a session knows whether it was, and
/// neither the server's start is awaited nor a stream started before.
pub proof fn law_test_is_requested_at_most_once(settings: ClientSettings, inputs: Seq<ClientInput>)
    ensures
        test_requests(settings, inputs) == (if client_after(settings, inputs).begun {
            1nat
        } else {
            0nat
        }),
        match client_after(settings, inputs).phase {
            ClientPhase::Connecting | ClientPhase::Connected => !client_after(
                settings,
                inputs,
            ).begun,
            ClientPhase::AwaitingReady | ClientPhase::Ready | ClientPhase::Testing => client_after(
                settings,
                inputs,
            ).begun,
            ClientPhase::Closing | ClientPhase::Aborted => true,
        },
    decreases inputs.len(),
{
    if inputs.len() > 0 {
        law_test_is_requested_at_most_once(settings, inputs.drop_last());
    }
}

/// A test is requested, and its streams are started, only while the run goes
/// on.
pub proof fn law_nothing_starts_after_shutdown(phase: ClientPhase)
    ensures
        alive_step(phase, false).1 != Ok::<AliveStep, ClientFailure>(AliveStep::SendBegin),
        alive_step(phase, false).1 != Ok::<AliveStep, ClientFailure>(AliveStep::StartStreams),
{
}

/// An interval that the server reports during the test, received or sent, is
/// recorded, and shown exactly if the display is not JSON. It changes nothing
/// else.
pub proof fn law_server_intervals_are_recorded(model: ClientModel, message: Json)
    requires
        model.phase == ClientPhase::Testing,
        says_kind(message, "receive"@) || says_kind(message, "send"@),
    ensures
        test_step(model, message).0 == model,
        test_step(model, message).1 == (TestStep::RecordInterval {
            show: model.settings.display != DisplayMode::Json,
        }),
{
}

/// The end of a stream that the server reports during the test is noted for
/// that stream and no other: it has ended at the server, and if it failed, at
/// the client too. The test is over exactly if no stream goes on then.
pub proof fn law_server_ends_are_noted(model: ClientModel, message: Json, number: int, idx: u8)
    requires
        model.phase == ClientPhase::Testing,
        says_kind(message, "done"@) || says_kind(message, "failed"@),
        holds(message, "stream_idx"@, Json::Integer(number)),
        i64::MIN <= number <= i64::MAX,
        idx == number % 256,
    ensures
        ({
            let failed = says_kind(message, "failed"@);
            let (after, step) = test_step(model, message);
            let before = model.progress;
            let over = (forall|i: u8| !after.progress.pending.contains(i)) && (forall|i: u8|
                !after.progress.pending_server.contains(i));
            &&& forall|i: u8|
                after.progress.pending_server.contains(i) <==> before.pending_server.contains(i)
                    && i != idx
            &&& forall|i: u8|
                after.progress.pending.contains(i) <==> before.pending.contains(i) && !(failed && i
                    == idx)
            &&& forall|i: u8|
                after.progress.failed.contains(i) <==> before.failed.contains(i) || (failed && i
                    == idx)
            &&& after.progress.family == before.family
            &&& after.settings == model.settings
            &&& after.begun == model.begun
            &&& over ==> step == TestStep::Completed && after.phase == ClientPhase::Closing
                && after.complete
            &&& !over ==> step == TestStep::StreamEnded && after.phase == ClientPhase::Testing
                && after.complete == model.complete
        }),
{
    lemma_words_differ();
    let n = number as i64;
    assert(n as u8 == n % 256) by (bit_vector);
    assert(reported_stream(message) == Some(idx));
    let after = test_step(model, message).0;
    assert(after.progress.pending.is_empty() <==> after.progress.pending =~= Set::empty());
    assert(after.progress.pending_server.is_empty() <==> after.progress.pending_server
        =~= Set::empty());
}

/// Whether a message holds the number of a stream.
pub open spec fn numbers_stream(message: Json) -> bool {
    exists|number: int|
        i64::MIN <= number <= i64::MAX && #[trigger] holds(
            message,
            "stream_idx"@,
            Json::Integer(number),
        )
}

/// A message during the test that makes no sense stops it and changes nothing
/// else: one without a kind or of another kind, and the report of an end that
/// numbers no stream.
pub proof fn law_senseless_messages_stop_test(model: ClientModel, message: Json)
    requires
        model.phase == ClientPhase::Testing,
        !says_kind(message, "receive"@),
        !says_kind(message, "send"@),
        !says_kind(message, "ready"@),
        says_kind(message, "done"@) || says_kind(message, "failed"@) ==> !numbers_stream(message),
    ensures
        test_step(model, message).1 == TestStep::Stopped,
        test_step(model, message).0 == (ClientModel { phase: ClientPhase::Closing, ..model }),
{
    lemma_words_differ();
    lemma_words_are_not_empty();
    if reported_stream(message) is Some {
        let number = message->Object_0["stream_idx"@]->Integer_0;
        assert(holds(message, "stream_idx"@, Json::Integer(number)));
    }
}

/// No kind of message is the empty text.
proof fn lemma_words_are_not_empty()
    ensures
        "receive"@.len() > 0,
        "send"@.len() > 0,
        "ready"@.len() > 0,
        "done"@.len() > 0,
        "failed"@.len() > 0,
        "connect"@.len() > 0,
        "connect-ready"@.len() > 0,
{
    reveal_strlit("receive");
    reveal_strlit("send");
    reveal_strlit("ready");
    reveal_strlit("done");
    reveal_strlit("failed");
    reveal_strlit("connect");
    reveal_strlit("connect-ready");
}

/// Whatever else it holds, a notice that the server has started is ignored
/// during the test.
pub proof fn law_ready_is_ignored_during_test(model: ClientModel, message: Json)
    requires
        model.phase == ClientPhase::Testing,
        says_kind(message, "ready"@),
    ensures
        test_step(model, message) == (model, TestStep::Ignored),
{
    lemma_words_differ();
}

/// A stream's own report is noted for that stream and no other, whatever the
/// phase is: one that ended well or failed has ended at the client, and one
/// that failed has failed. An interval changes nothing and is recorded, and
/// shown exactly if the display is not JSON.
pub proof fn law_stream_reports_are_noted(model: ClientModel, report: StreamReport, idx: u8)
    requires
        report == StreamReport::Done(idx) || report == StreamReport::Failed(idx),
    ensures
        ({
            let after = after_report(model, report);
            let ended = forall|i: u8| !after.progress.pending.contains(i);
            let ended_server = forall|i: u8| !model.progress.pending_server.contains(i);
            &&& forall|i: u8|
                after.progress.pending.contains(i) <==> model.progress.pending.contains(i) && i
                    != idx
            &&& forall|i: u8|
                after.progress.failed.contains(i) <==> model.progress.failed.contains(i) || (
                report is Failed && i == idx)
            &&& after == (ClientModel {
                progress: Progress {
                    pending: after.progress.pending,
                    failed: after.progress.failed,
                    ..model.progress
                },
                ..model
            })
            &&& report_step(model, report) == (if !ended {
                ReportStep::Waiting
            } else if !ended_server {
                ReportStep::StartKillTimer
            } else {
                ReportStep::AllReported
            })
        }),
        after_report(model, StreamReport::Interval) == model,
        report_step(model, StreamReport::Interval) == (ReportStep::RecordInterval {
            show: model.settings.display != DisplayMode::Json,
        }),
{
    let after = after_report(model, report);
    assert(after.progress.pending.is_empty() <==> after.progress.pending =~= Set::empty());
    assert(model.progress.pending_server.is_empty() <==> model.progress.pending_server
        =~= Set::empty());
    assert(after =~= (ClientModel {
        progress: Progress {
            pending: after.progress.pending,
            failed: after.progress.failed,
            ..model.progress
        },
        ..model
    }));
}

/// A session begins with the server's answer awaited, nothing requested, and
/// each stream going on at both sides; there are as many as eight bits of the
/// configured number tell.
pub proof fn law_session_begins_with_all_streams(settings: ClientSettings, idx: u8)
    ensures
        ({
            let model = client_after(settings, seq![]);
            &&& model.settings == settings
            &&& model.phase == ClientPhase::Connecting
            &&& !model.begun
            &&& !model.complete
            &&& model.progress.pending.contains(idx) <==> idx < settings.stream_count % 256
            &&& model.progress.pending_server.contains(idx) <==> idx < settings.stream_count % 256
            &&& !model.progress.failed.contains(idx)
            &&& model.progress.family == TestFamily::Udp <==> settings.is_udp
        }),
{
}

/// The server's answer is told by its kind: ports make the client prepare a
/// sender for each, in order, with the index and the port of its place, and a
/// bare notice is enough in reverse. Without ports, or with ports in no array,
/// the run is given up; any other answer is passed over.
pub proof fn law_connection_answers_are_told_apart(model: ClientModel, message: Json)
    ensures
        says_kind(message, "connect"@) && lacks(message, "stream_ports"@) ==> connection_reply(
            message,
        ) == ConnectionReply::MissingStreamPorts,
        forall|ports: Json|
            says_kind(message, "connect"@) && #[trigger] holds(message, "stream_ports"@, ports)
                && !(ports is Array) ==> connection_reply(message)
                == ConnectionReply::StreamPortsNotArray,
        forall|ports: Seq<Json>|
            says_kind(message, "connect"@) && #[trigger] holds(
                message,
                "stream_ports"@,
                Json::Array(ports),
            ) ==> (connection_reply(message) matches ConnectionReply::Connect(plans) && plans.len()
                == ports.len() && forall|i: int|
                0 <= i < ports.len() ==> (#[trigger] plans[i]).stream_idx == i % 256 && plans[i].port
                    == port_named(ports[i])),
        says_kind(message, "connect-ready"@) ==> connection_reply(message)
            == ConnectionReply::ConnectReady,
        lacks(message, "kind"@) ==> connection_reply(message) == ConnectionReply::Malformed,
        !lacks(message, "kind"@) && !says_kind(message, "connect"@) && !says_kind(
            message,
            "connect-ready"@,
        ) ==> connection_reply(message) == ConnectionReply::Unexpected,
        after_connection(model, message) == (ClientModel {
            phase: if connection_reply(message) is MissingStreamPorts || connection_reply(
                message,
            ) is StreamPortsNotArray {
                ClientPhase::Aborted
            } else {
                ClientPhase::Connected
            },
            ..model
        }),
{
    lemma_words_differ();
    lemma_words_are_not_empty();
    assert forall|ports: Seq<Json>|
        says_kind(message, "connect"@) && #[trigger] holds(
            message,
            "stream_ports"@,
            Json::Array(ports),
        ) implies (connection_reply(message) matches ConnectionReply::Connect(plans) && plans.len()
        == ports.len() && forall|i: int|
        0 <= i < ports.len() ==> (#[trigger] plans[i]).stream_idx == i % 256 && plans[i].port
            == port_named(ports[i])) by {
        law_senders_follow_ports(ports, None);
    }
}

/// While the run goes on, the test is requested once the server has answered,
/// messages are received until the server has started, then the streams are
/// started, and messages are received from there on.
pub proof fn law_live_run_goes_through_test(model: ClientModel)
    ensures
        model.phase == ClientPhase::Connected ==> alive_step(model.phase, true).1 == Ok::<
            AliveStep,
            ClientFailure,
        >(AliveStep::SendBegin) && after_alive(model, true) == (ClientModel {
            phase: ClientPhase::AwaitingReady,
            begun: true,
            ..model
        }),
        model.phase == ClientPhase::AwaitingReady ==> alive_step(model.phase, true).1 == Ok::<
            AliveStep,
            ClientFailure,
        >(AliveStep::Receive) && after_alive(model, true) == model,
        model.phase == ClientPhase::Ready ==> alive_step(model.phase, true).1 == Ok::<
            AliveStep,
            ClientFailure,
        >(AliveStep::StartStreams) && after_alive(model, true) == (ClientModel {
            phase: ClientPhase::Testing,
            ..model
        }),
        model.phase == ClientPhase::Testing ==> alive_step(model.phase, true).1 == Ok::<
            AliveStep,
            ClientFailure,
        >(AliveStep::Receive) && after_alive(model, true) == model,
{
}

/// A run that has ended is wound up before the test is requested and once the
/// streams run, and given up in between.
pub proof fn law_ended_run_is_wound_up_or_given_up(model: ClientModel)
    ensures
        model.phase == ClientPhase::Connected || model.phase == ClientPhase::Testing
            ==> alive_step(model.phase, false).1 == Ok::<AliveStep, ClientFailure>(AliveStep::Close)
            && after_alive(model, false) == (ClientModel { phase: ClientPhase::Closing, ..model }),
        model.phase == ClientPhase::AwaitingReady || model.phase == ClientPhase::Ready
            ==> alive_step(model.phase, false).1 == Err::<AliveStep, ClientFailure>(
            ClientFailure::ShutdownAwaitingReady,
        ) && after_alive(model, false) == (ClientModel { phase: ClientPhase::Aborted, ..model }),
{
}

/// While the server's start is awaited, its notice is the one message that
/// counts; any other changes nothing.
pub proof fn law_only_ready_ends_wait(model: ClientModel, message: Json)
    ensures
        says_kind(message, "ready"@) ==> waiting_step(message) == WaitingStep::Ready
            && after_waiting(model, message) == (ClientModel { phase: ClientPhase::Ready, ..model }),
        !says_kind(message, "ready"@) ==> after_waiting(model, message) == model,
        forall|kind: Seq<char>|
            #[trigger] says_kind(message, kind) && kind != "ready"@ ==> waiting_step(message)
                == WaitingStep::Unexpected,
        (forall|kind: Seq<char>| !#[trigger] says_kind(message, kind)) ==> waiting_step(message)
            == WaitingStep::Malformed,
{
    if text_kind_of(message) is Some {
        assert(says_kind(message, text_kind_of(message)->0));
    }
}

/// A connection that fails gives the run up, for the reason of its phase,
/// unless all streams have been reported to have ended.
pub proof fn law_lost_connection_gives_run_up(model: ClientModel)
    ensures
        model.phase == ClientPhase::Connecting ==> lost_step(model) == (
            ClientPhase::Aborted,
            Some(ClientFailure::NoConnection),
        ),
        model.phase == ClientPhase::AwaitingReady ==> lost_step(model) == (
            ClientPhase::Aborted,
            Some(ClientFailure::ReadyLost),
        ),
        model.phase == ClientPhase::Testing && !model.complete ==> lost_step(model) == (
            ClientPhase::Aborted,
            Some(ClientFailure::ReceiveFailed),
        ),
        model.phase == ClientPhase::Testing && model.complete ==> lost_step(model) == (
            ClientPhase::Closing,
            None::<ClientFailure>,
        ),
{
}

/// How often a step occurs.
pub open spec fn occurrences(steps: Seq<ClosingStep>, step: ClosingStep) -> nat
    decreases steps.len(),
{
    if steps.len() == 0 {
        0
    } else {
        occurrences(steps.drop_last(), step) + if steps.last() == step {
            1nat
        } else {
            0nat
        }
    }
}

/// Winding up tells the server first, and shuts the connection down last, after
/// a pause that nothing but that follows. The server is told, and the
/// connection shut down, twice if the test was requested and once if not, and
/// each notice comes before a shutdown.
pub proof fn law_winding_up_tells_server(begun: bool)
    ensures
        ({
            let steps = closing_steps(begun);
            let times: nat = if begun {
                2
            } else {
                1
            };
            &&& steps.len() == 2 * times + 1
            &&& steps.first() == ClosingStep::SendEnd
            &&& steps[steps.len() - 3] == ClosingStep::SendEnd
            &&& steps[steps.len() - 2] == ClosingStep::Pause
            &&& steps.last() == ClosingStep::Disconnect
            &&& occurrences(steps, ClosingStep::SendEnd) == times
            &&& occurrences(steps, ClosingStep::Disconnect) == times
            &&& occurrences(steps, ClosingStep::Pause) == 1
        }),
{
    reveal_with_fuel(occurrences, 6);
}

/// A run is a success exactly if no stream goes on at the client and none has
/// failed.
pub proof fn law_success_is_no_stream_left_or_failed(progress: Progress)
    ensures
        progress.is_success() <==> forall|i: u8|
            !(#[trigger] progress.pending.contains(i)) && !progress.failed.contains(i),
{
    assert(progress.pending.is_empty() <==> progress.pending =~= Set::empty());
    assert(progress.failed.is_empty() <==> progress.failed =~= Set::empty());
}

/// A session that is handed an interval of the server during the test has it
/// recorded, and shown exactly if the display is not JSON, and stays as it was.
pub proof fn law_interval_message_is_recorded(
    session: &mut ClientSession,
    message: serde_json::Value,
    step: TestStep,
)
    requires
        call_ensures(ClientSession::on_test_message, (session, &message), step),
        old(session)@.phase == ClientPhase::Testing,
        says_kind(json_of(message), "receive"@) || says_kind(json_of(message), "send"@),
    ensures
        final(session)@ == old(session)@,
        step == (TestStep::RecordInterval {
            show: old(session)@.settings.display != DisplayMode::Json,
        }),
{
    law_server_intervals_are_recorded(old(session)@, json_of(message));
}

/// A session that is handed the server's report of a stream's end during the
/// test winds up exactly if no stream goes on then, and goes on otherwise. It
/// is then a success exactly if none has failed, neither this one nor one
/// before.
pub proof fn law_last_end_message_ends_test(
    session: &mut ClientSession,
    message: serde_json::Value,
    step: TestStep,
    number: int,
    idx: u8,
)
    requires
        call_ensures(ClientSession::on_test_message, (session, &message), step),
        old(session)@.phase == ClientPhase::Testing,
        says_kind(json_of(message), "done"@) || says_kind(json_of(message), "failed"@),
        holds(json_of(message), "stream_idx"@, Json::Integer(number)),
        i64::MIN <= number <= i64::MAX,
        idx == number % 256,
    ensures
        step == TestStep::Completed || step == TestStep::StreamEnded,
        step == TestStep::Completed <==> (forall|i: u8|
            !(#[trigger] final(session)@.progress.pending.contains(i))) && (forall|i: u8|
            !(#[trigger] final(session)@.progress.pending_server.contains(i))),
        final(session)@.phase == (if step == TestStep::Completed {
            ClientPhase::Closing
        } else {
            ClientPhase::Testing
        }),
        !final(session)@.progress.pending_server.contains(idx),
        says_kind(json_of(message), "failed"@) ==> final(session)@.progress.failed.contains(idx)
            && !final(session)@.progress.pending.contains(idx),
{
    law_server_ends_are_noted(old(session)@, json_of(message), number, idx);
}

/// A session takes each message, report and answer by the step that belongs to
/// its state.
pub proof fn law_session_takes_its_steps(
    session: &mut ClientSession,
    message: serde_json::Value,
    report: StreamReport,
    alive: bool,
    tested: TestStep,
    waited: WaitingStep,
    reported: ReportStep,
    went: Result<AliveStep, ClientFailure>,
    lost: Option<ClientFailure>,
)
    ensures
        call_ensures(ClientSession::on_test_message, (session, &message), tested) ==> (
        final(session)@, tested) == test_step(old(session)@, json_of(message)),
        call_ensures(ClientSession::on_waiting_message, (session, &message), waited) ==> waited
            == waiting_step(json_of(message)) && final(session)@ == after_waiting(
            old(session)@,
            json_of(message),
        ),
        call_ensures(ClientSession::on_report, (session, report), reported) ==> reported
            == report_step(old(session)@, report) && final(session)@ == after_report(
            old(session)@,
            report,
        ),
        call_ensures(ClientSession::on_alive, (session, alive), went) ==> went == alive_step(
            old(session)@.phase,
            alive,
        ).1 && final(session)@ == after_alive(old(session)@, alive),
        call_ensures(ClientSession::on_receive_failure, (session,), lost) ==> lost == lost_step(
            old(session)@,
        ).1 && final(session)@ == (ClientModel {
            phase: lost_step(old(session)@).0,
            ..old(session)@
        }),
{
}

/// The server's answer is taken by what it amounts to: a sender is planned for
/// each port that it names, and the run is given up exactly if the ports are
/// missing or no array.
pub proof fn law_connection_message_is_taken(
    session: &mut ClientSession,
    message: serde_json::Value,
    step: Result<ConnectionStep, ClientFailure>,
    ports: Seq<Json>,
)
    requires
        call_ensures(ClientSession::on_connection, (session, &message), step),
    ensures
        says_kind(json_of(message), "connect"@) && holds(
            json_of(message),
            "stream_ports"@,
            Json::Array(ports),
        ) ==> (step matches Ok(ConnectionStep::Connect(plans)) && plans@.len() == ports.len()
            && forall|i: int|
            0 <= i < ports.len() ==> (#[trigger] plans@[i]).stream_idx == i % 256 && plans@[i].port
                == port_named(ports[i])),
        says_kind(json_of(message), "connect-ready"@) ==> step matches Ok(
            ConnectionStep::ConnectReady,
        ),
        says_kind(json_of(message), "connect"@) && lacks(json_of(message), "stream_ports"@)
            ==> step matches Err(ClientFailure::MissingStreamPorts),
        step matches Ok(ConnectionStep::Malformed) <==> lacks(json_of(message), "kind"@),
        step matches Ok(ConnectionStep::Unexpected) <==> !lacks(json_of(message), "kind"@)
            && !says_kind(json_of(message), "connect"@) && !says_kind(
            json_of(message),
            "connect-ready"@,
        ),
        step matches Err(ClientFailure::StreamPortsNotArray) <==> connection_reply(
            json_of(message),
        ) == ConnectionReply::StreamPortsNotArray,
        step is Err ==> final(session)@.phase == ClientPhase::Aborted,
        step is Ok ==> final(session)@.phase == ClientPhase::Connected,
        step is Err ==> says_kind(json_of(message), "connect"@),
{
    law_connection_answers_are_told_apart(old(session)@, json_of(message));
}

/// A new session is in the state in which sessions begin. What is to be done
/// first is told by the direction, what is to be done last by whether the test
/// was requested, and a run succeeds exactly if no stream is left or failed.
pub proof fn law_session_is_told_as_it_is(
    settings: ClientSettings,
    fresh: ClientSession,
    session: ClientSession,
    phase: ClientPhase,
    opening: Opening,
    closing: Vec<ClosingStep>,
    outcome: Result<(), ClientFailure>,
)
    requires
        call_ensures(ClientSession::new, (settings,), fresh),
        call_ensures(ClientSession::phase, (&session,), phase),
        call_ensures(ClientSession::opening, (&session,), opening),
        call_ensures(ClientSession::closing, (&session,), closing),
        call_ensures(ClientSession::outcome, (&session,), outcome),
    ensures
        fresh@ == client_after(settings, seq![]),
        phase == session@.phase,
        session@.settings.reverse ==> opening == (Opening::Reverse {
            streams: session@.settings.stream_count,
        }),
        !session@.settings.reverse ==> opening == Opening::Forward,
        closing@ == closing_steps(session@.begun),
        outcome == Ok::<(), ClientFailure>(()) <==> forall|i: u8|
            !(#[trigger] session@.progress.pending.contains(i))
                && !session@.progress.failed.contains(i),
        outcome is Err ==> outcome == Err::<(), ClientFailure>(ClientFailure::TestIncomplete),
{
    law_success_is_no_stream_left_or_failed(session@.progress);
}

} // verus!
