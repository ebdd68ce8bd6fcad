//! The client's decisions in a test.
//!
//! The program around this module talks to the server and to the streams. It
//! tells a [`ClientSession`] what came in and does what the session answers.

use vstd::prelude::*;

use crate::client::{prepare_test_results, DisplayMode};
use crate::protocol::json::{as_array, as_i64, get, json_of, Json};
use crate::protocol::messaging::{
    kind_of, message_kind, message_text_kind, plan_senders, sender_plans, text_kind_of, SenderPlan,
};
use crate::protocol::results::{Progress, TestFamily, TestResults};
use crate::utils::text::same_text;

verus! {

/// What a test is to be.
#[derive(Debug, PartialEq, Eq, Structural, Clone, Copy)]
pub struct ClientSettings {
    pub is_udp: bool,
    /// The server sends and the client receives.
    pub reverse: bool,
    pub display: DisplayMode,
    pub stream_count: usize,
}

/// How far a session has come.
#[derive(Debug, PartialEq, Eq, Structural, Clone, Copy)]
pub enum ClientPhase {
    /// The configuration has been sent; the server's answer is awaited.
    Connecting,
    /// The server has answered.
    Connected,
    /// The test has been requested; the server's start is awaited.
    AwaitingReady,
    /// The server has started.
    Ready,
    /// The streams run.
    Testing,
    /// The test is over.
    Closing,
    /// The run is given up.
    Aborted,
}

/// Why a run fails.
#[derive(Debug, PartialEq, Eq, Structural, Clone, Copy)]
pub enum ClientFailure {
    /// No answer to the configuration came.
    NoConnection,
    /// The server's answer lacks its ports.
    MissingStreamPorts,
    /// The server's ports are no array.
    StreamPortsNotArray,
    /// The run was ended before the server started.
    ShutdownAwaitingReady,
    /// The connection failed before the server started.
    ReadyLost,
    /// The connection failed during the test.
    ReceiveFailed,
    /// Not every stream ended well.
    TestIncomplete,
}

impl ClientFailure {
    /// What the failure is reported as. Where a connection failed, the reason
    /// for that follows; before the server has started it is all that is
    /// reported.
    pub fn message(self) -> (text: Option<&'static str>)
        ensures
            match self {
                ClientFailure::NoConnection => text matches Some(t) && t@
                    == "Failed to receive connection payload from server"@,
                ClientFailure::MissingStreamPorts => text matches Some(t) && t@
                    == "Server response missing 'stream_ports' field"@,
                ClientFailure::StreamPortsNotArray => text matches Some(t) && t@
                    == "'stream_ports' is not an array"@,
                ClientFailure::ShutdownAwaitingReady => text matches Some(t) && t@
                    == "Shutdown requested while waiting for server ready signal"@,
                ClientFailure::ReadyLost => text is None,
                ClientFailure::ReceiveFailed => text matches Some(t) && t@ == "Receive error"@,
                ClientFailure::TestIncomplete => text matches Some(t) && t@
                    == "Test incomplete: some streams failed or timed out"@,
            },
    {
        match self {
            ClientFailure::NoConnection => Some("Failed to receive connection payload from server"),
            ClientFailure::MissingStreamPorts => Some(
                "Server response missing 'stream_ports' field",
            ),
            ClientFailure::StreamPortsNotArray => Some("'stream_ports' is not an array"),
            ClientFailure::ShutdownAwaitingReady => Some(
                "Shutdown requested while waiting for server ready signal",
            ),
            ClientFailure::ReadyLost => None,
            ClientFailure::ReceiveFailed => Some("Receive error"),
            ClientFailure::TestIncomplete => Some(
                "Test incomplete: some streams failed or timed out",
            ),
        }
    }
}

/// What to do before the server is asked for anything.
#[derive(Debug, PartialEq, Eq, Structural, Clone, Copy)]
pub enum Opening {
    /// Prepare a receiver for each of so many streams, then send the upload
    /// configuration with their ports.
    Reverse { streams: usize },
    /// Send the download configuration.
    Forward,
}

/// What to do upon the server's answer to the configuration.
#[derive(Debug)]
pub enum ConnectionStep {
    /// Prepare a sender for each port.
    Connect(Vec<SenderPlan>),
    /// Nothing: the server sends.
    ConnectReady,
    /// Nothing but a warning: the answer is of no known kind.
    Unexpected,
    /// Nothing but a warning: the answer has no kind.
    Malformed,
}

/// What the server's answer to the configuration amounts to.
pub enum ConnectionReply {
    Connect(Seq<SenderPlan>),
    ConnectReady,
    Unexpected,
    Malformed,
    MissingStreamPorts,
    StreamPortsNotArray,
}

/// What to do, now that it is known whether the run goes on.
#[derive(Debug, PartialEq, Eq, Structural, Clone, Copy)]
pub enum AliveStep {
    /// Request the test.
    SendBegin,
    /// Start the streams.
    StartStreams,
    /// Receive the next message.
    Receive,
    /// Wind the session up.
    Close,
}

/// What to do upon a message while the server's start is awaited.
#[derive(Debug, PartialEq, Eq, Structural, Clone, Copy)]
pub enum WaitingStep {
    /// The server has started.
    Ready,
    /// Nothing but a warning: the message is of another kind.
    Unexpected,
    /// Nothing but a warning: the message has no kind.
    Malformed,
}

/// What to do upon a message during the test.
#[derive(Debug, PartialEq, Eq, Structural, Clone, Copy)]
pub enum TestStep {
    /// Add the interval to the results, and display it if `show` is set.
    RecordInterval { show: bool },
    /// Nothing: the end of a stream has been noted.
    StreamEnded,
    /// Request shutdown and wind the session up: all streams have ended.
    Completed,
    /// Nothing: the message is superfluous.
    Ignored,
    /// Wind the session up: the message makes no sense.
    Stopped,
}

/// What a stream reports.
#[derive(Debug, PartialEq, Eq, Structural, Clone, Copy)]
pub enum StreamReport {
    /// The stream has ended well.
    Done(u8),
    /// The stream has failed.
    Failed(u8),
    /// Some interval has passed.
    Interval,
}

/// What to do upon a stream's report.
#[derive(Debug, PartialEq, Eq, Structural, Clone, Copy)]
pub enum ReportStep {
    /// Add the interval to the results, and display it if `show` is set.
    RecordInterval { show: bool },
    /// Nothing: other streams go on.
    Waiting,
    /// Start the kill timer: only the server's streams go on.
    StartKillTimer,
    /// Nothing: the server's streams have ended before.
    AllReported,
}

/// What to do, in turn, when the session is wound up.
#[derive(Debug, PartialEq, Eq, Structural, Clone, Copy)]
pub enum ClosingStep {
    /// Tell the server that the test is over. That this fails does not matter.
    SendEnd,
    /// Let the notice reach the server.
    Pause,
    /// Shut the connection down. That this fails does not matter.
    Disconnect,
}

/// How long to pause before the connection is shut down at last, in
/// milliseconds.
pub const CLOSING_PAUSE_MILLIS: u64 = 250;

/// The state of a session.
#[verifier::ext_equal]
pub struct ClientModel {
    pub settings: ClientSettings,
    pub phase: ClientPhase,
    /// The test has been requested.
    pub begun: bool,
    /// All streams have been reported to have ended.
    pub complete: bool,
    pub progress: Progress,
}

impl ClientModel {
    /// The state in which a session begins. The index of a stream has eight
    /// bits, and so has the number of streams that are waited for.
    pub open spec fn initial(settings: ClientSettings) -> ClientModel {
        ClientModel {
            settings,
            phase: ClientPhase::Connecting,
            begun: false,
            complete: false,
            progress: Progress::of_streams(
                if settings.is_udp {
                    TestFamily::Udp
                } else {
                    TestFamily::Tcp
                },
                (settings.stream_count % 256) as int,
            ),
        }
    }

    /// The same state in another phase.
    pub open spec fn in_phase(self, phase: ClientPhase) -> ClientModel {
        ClientModel { phase, ..self }
    }

    /// Whether intervals are displayed as they come.
    pub open spec fn shows_intervals(self) -> bool {
        self.settings.display != DisplayMode::Json
    }
}

/// What the server's answer to the configuration amounts to.
pub open spec fn connection_reply(message: Json) -> ConnectionReply {
    match kind_of(message) {
        Some(kind) => if kind == "connect"@ {
            match message.member("stream_ports"@) {
                Some(ports) => match ports.elements() {
                    Some(elements) => ConnectionReply::Connect(sender_plans(elements, None)),
                    None => ConnectionReply::StreamPortsNotArray,
                },
                None => ConnectionReply::MissingStreamPorts,
            }
        } else if kind == "connect-ready"@ {
            ConnectionReply::ConnectReady
        } else {
            ConnectionReply::Unexpected
        },
        None => ConnectionReply::Malformed,
    }
}

/// The state after the server's answer to the configuration.
pub open spec fn after_connection(model: ClientModel, message: Json) -> ClientModel {
    match connection_reply(message) {
        ConnectionReply::MissingStreamPorts
        | ConnectionReply::StreamPortsNotArray => model.in_phase(ClientPhase::Aborted),
        _ => model.in_phase(ClientPhase::Connected),
    }
}

/// The phase that follows once it is known whether the run goes on, and what
/// is to be done.
pub open spec fn alive_step(phase: ClientPhase, alive: bool) -> (
    ClientPhase,
    Result<AliveStep, ClientFailure>,
) {
    match phase {
        ClientPhase::Connected => if alive {
            (ClientPhase::AwaitingReady, Ok(AliveStep::SendBegin))
        } else {
            (ClientPhase::Closing, Ok(AliveStep::Close))
        },
        ClientPhase::AwaitingReady => if alive {
            (ClientPhase::AwaitingReady, Ok(AliveStep::Receive))
        } else {
            (ClientPhase::Aborted, Err(ClientFailure::ShutdownAwaitingReady))
        },
        ClientPhase::Ready => if alive {
            (ClientPhase::Testing, Ok(AliveStep::StartStreams))
        } else {
            (ClientPhase::Aborted, Err(ClientFailure::ShutdownAwaitingReady))
        },
        _ => if alive {
            (ClientPhase::Testing, Ok(AliveStep::Receive))
        } else {
            (ClientPhase::Closing, Ok(AliveStep::Close))
        },
    }
}

/// The state once it is known whether the run goes on.
pub open spec fn after_alive(model: ClientModel, alive: bool) -> ClientModel {
    let (phase, step) = alive_step(model.phase, alive);
    ClientModel {
        phase,
        begun: model.begun || step == Ok::<AliveStep, ClientFailure>(AliveStep::SendBegin),
        ..model
    }
}

/// What is to be done when the session is wound up. The server is told twice if
/// the test was requested, over a connection that may be shut down by then.
pub open spec fn closing_steps(begun: bool) -> Seq<ClosingStep> {
    if begun {
        seq![
            ClosingStep::SendEnd,
            ClosingStep::Disconnect,
            ClosingStep::SendEnd,
            ClosingStep::Pause,
            ClosingStep::Disconnect,
        ]
    } else {
        seq![ClosingStep::SendEnd, ClosingStep::Pause, ClosingStep::Disconnect]
    }
}

/// What a message amounts to while the server's start is awaited.
pub open spec fn waiting_step(message: Json) -> WaitingStep {
    match text_kind_of(message) {
        Some(kind) => if kind == "ready"@ {
            WaitingStep::Ready
        } else {
            WaitingStep::Unexpected
        },
        None => WaitingStep::Malformed,
    }
}

/// The state after a message while the server's start is awaited.
pub open spec fn after_waiting(model: ClientModel, message: Json) -> ClientModel {
    match waiting_step(message) {
        WaitingStep::Ready => model.in_phase(ClientPhase::Ready),
        _ => model,
    }
}

/// The stream whose end a message reports, by eight bits of its index.
pub open spec fn reported_stream(message: Json) -> Option<u8> {
    match message.member("stream_idx"@) {
        Some(idx) => match idx.signed() {
            Some(n) => Some(n as u8),
            None => None,
        },
        None => None,
    }
}

/// The progress once the server has reported the end of stream `idx`. A stream
/// that failed there has ended at the client too.
pub open spec fn after_server_report(progress: Progress, idx: u8, failed: bool) -> Progress {
    if failed {
        progress.done(idx, false).done_server(idx)
    } else {
        progress.done_server(idx)
    }
}

/// The state after a message during the test, and what is to be done.
pub open spec fn test_step(model: ClientModel, message: Json) -> (ClientModel, TestStep) {
    let stopped = (model.in_phase(ClientPhase::Closing), TestStep::Stopped);
    match kind_of(message) {
        Some(kind) => if kind == "receive"@ || kind == "send"@ {
            (model, TestStep::RecordInterval { show: model.shows_intervals() })
        } else if kind == "done"@ || kind == "failed"@ {
            match reported_stream(message) {
                Some(idx) => {
                    let progress = after_server_report(model.progress, idx, kind == "failed"@);
                    if progress.client_is_done() && progress.server_is_done() {
                        (
                            ClientModel {
                                phase: ClientPhase::Closing,
                                complete: true,
                                progress,
                                ..model
                            },
                            TestStep::Completed,
                        )
                    } else {
                        (ClientModel { progress, ..model }, TestStep::StreamEnded)
                    }
                },
                None => stopped,
            }
        } else if kind == "ready"@ {
            (model, TestStep::Ignored)
        } else {
            stopped
        },
        None => stopped,
    }
}

/// The state after a stream's report.
pub open spec fn after_report(model: ClientModel, report: StreamReport) -> ClientModel {
    match report {
        StreamReport::Done(idx) => ClientModel {
            progress: model.progress.done(idx, true),
            ..model
        },
        StreamReport::Failed(idx) => ClientModel {
            progress: model.progress.done(idx, false),
            ..model
        },
        StreamReport::Interval => model,
    }
}

/// What is to be done upon a stream's report, once it has been noted.
pub open spec fn report_step(model: ClientModel, report: StreamReport) -> ReportStep {
    let progress = after_report(model, report).progress;
    if report is Interval {
        ReportStep::RecordInterval { show: model.shows_intervals() }
    } else if !progress.client_is_done() {
        ReportStep::Waiting
    } else if !progress.server_is_done() {
        ReportStep::StartKillTimer
    } else {
        ReportStep::AllReported
    }
}

/// The phase that follows when no message could be received, and why the run
/// then fails, if it does.
pub open spec fn lost_step(model: ClientModel) -> (ClientPhase, Option<ClientFailure>) {
    match model.phase {
        ClientPhase::Connecting => (ClientPhase::Aborted, Some(ClientFailure::NoConnection)),
        ClientPhase::AwaitingReady => (ClientPhase::Aborted, Some(ClientFailure::ReadyLost)),
        _ => if model.complete {
            (ClientPhase::Closing, None)
        } else {
            (ClientPhase::Aborted, Some(ClientFailure::ReceiveFailed))
        },
    }
}

/// The client's side of one test.
#[derive(Debug)]
pub struct ClientSession {
    settings: ClientSettings,
    phase: ClientPhase,
    begun: bool,
    complete: bool,
    results: TestResults,
}

impl View for ClientSession {
    type V = ClientModel;

    closed spec fn view(&self) -> ClientModel {
        ClientModel {
            settings: self.settings,
            phase: self.phase,
            begun: self.begun,
            complete: self.complete,
            progress: self.results@,
        }
    }
}

impl ClientSession {
    /// The streams can be counted.
    pub closed spec fn wf(&self) -> bool {
        self.results.wf()
    }

    /// A session that awaits the answer to its configuration.
    pub fn new(settings: ClientSettings) -> (session: ClientSession)
        ensures
            session.wf(),
            session@ == ClientModel::initial(settings),
    {
        let stream_count: u8 = (settings.stream_count % 256) as u8;
        ClientSession {
            settings,
            phase: ClientPhase::Connecting,
            begun: false,
            complete: false,
            results: prepare_test_results(settings.is_udp, stream_count),
        }
    }

    /// How far the session has come.
    pub fn phase(&self) -> (phase: ClientPhase)
        ensures
            phase == self@.phase,
    {
        self.phase
    }

    /// What to do before the server is asked for anything.
    pub fn opening(&self) -> (opening: Opening)
        ensures
            opening == (if self@.settings.reverse {
                Opening::Reverse { streams: self@.settings.stream_count }
            } else {
                Opening::Forward
            }),
    {
        if self.settings.reverse {
            Opening::Reverse { streams: self.settings.stream_count }
        } else {
            Opening::Forward
        }
    }

    /// Takes the server's answer to the configuration.
    pub fn on_connection(&mut self, message: &serde_json::Value) -> (step: Result<
        ConnectionStep,
        ClientFailure,
    >)
        requires
            old(self).wf(),
            old(self)@.phase == ClientPhase::Connecting,
        ensures
            final(self).wf(),
            final(self)@ == after_connection(old(self)@, json_of(*message)),
            match connection_reply(json_of(*message)) {
                ConnectionReply::Connect(plans) => step matches Ok(ConnectionStep::Connect(made))
                    && made@ == plans,
                ConnectionReply::ConnectReady => step matches Ok(ConnectionStep::ConnectReady),
                ConnectionReply::Unexpected => step matches Ok(ConnectionStep::Unexpected),
                ConnectionReply::Malformed => step matches Ok(ConnectionStep::Malformed),
                ConnectionReply::MissingStreamPorts => step matches Err(
                    ClientFailure::MissingStreamPorts,
                ),
                ConnectionReply::StreamPortsNotArray => step matches Err(
                    ClientFailure::StreamPortsNotArray,
                ),
            },
    {
        self.phase = ClientPhase::Connected;
        match message_kind(message) {
            Some(kind) => if same_text(kind, "connect") {
                match get(message, "stream_ports") {
                    Some(stream_ports) => match as_array(stream_ports) {
                        Some(ports) => Ok(ConnectionStep::Connect(plan_senders(ports, None))),
                        None => {
                            self.phase = ClientPhase::Aborted;
                            Err(ClientFailure::StreamPortsNotArray)
                        },
                    },
                    None => {
                        self.phase = ClientPhase::Aborted;
                        Err(ClientFailure::MissingStreamPorts)
                    },
                }
            } else if same_text(kind, "connect-ready") {
                Ok(ConnectionStep::ConnectReady)
            } else {
                Ok(ConnectionStep::Unexpected)
            },
            None => Ok(ConnectionStep::Malformed),
        }
    }

    /// Takes note whether the run goes on, as is asked once the server has
    /// answered, before each further message is received, and once the server
    /// has started.
    pub fn on_alive(&mut self, alive: bool) -> (step: Result<AliveStep, ClientFailure>)
        requires
            old(self).wf(),
            old(self)@.phase == ClientPhase::Connected || old(self)@.phase
                == ClientPhase::AwaitingReady || old(self)@.phase == ClientPhase::Ready || old(
                self,
            )@.phase == ClientPhase::Testing,
        ensures
            final(self).wf(),
            final(self)@ == after_alive(old(self)@, alive),
            step == alive_step(old(self)@.phase, alive).1,
    {
        match self.phase {
            ClientPhase::Connected => if alive {
                self.phase = ClientPhase::AwaitingReady;
                self.begun = true;
                Ok(AliveStep::SendBegin)
            } else {
                self.phase = ClientPhase::Closing;
                Ok(AliveStep::Close)
            },
            ClientPhase::AwaitingReady => if alive {
                Ok(AliveStep::Receive)
            } else {
                self.phase = ClientPhase::Aborted;
                Err(ClientFailure::ShutdownAwaitingReady)
            },
            ClientPhase::Ready => if alive {
                self.phase = ClientPhase::Testing;
                Ok(AliveStep::StartStreams)
            } else {
                self.phase = ClientPhase::Aborted;
                Err(ClientFailure::ShutdownAwaitingReady)
            },
            _ => if alive {
                Ok(AliveStep::Receive)
            } else {
                self.phase = ClientPhase::Closing;
                Ok(AliveStep::Close)
            },
        }
    }

    /// Takes a message while the server's start is awaited.
    pub fn on_waiting_message(&mut self, message: &serde_json::Value) -> (step: WaitingStep)
        requires
            old(self).wf(),
            old(self)@.phase == ClientPhase::AwaitingReady,
        ensures
            final(self).wf(),
            final(self)@ == after_waiting(old(self)@, json_of(*message)),
            step == waiting_step(json_of(*message)),
    {
        match message_text_kind(message) {
            Some(kind) => if same_text(kind, "ready") {
                self.phase = ClientPhase::Ready;
                WaitingStep::Ready
            } else {
                WaitingStep::Unexpected
            },
            None => WaitingStep::Malformed,
        }
    }

    /// Takes a message during the test.
    pub fn on_test_message(&mut self, message: &serde_json::Value) -> (step: TestStep)
        requires
            old(self).wf(),
            old(self)@.phase == ClientPhase::Testing,
        ensures
            final(self).wf(),
            (final(self)@, step) == test_step(old(self)@, json_of(*message)),
    {
        match message_kind(message) {
            Some(kind) => if same_text(kind, "receive") || same_text(kind, "send") {
                TestStep::RecordInterval { show: !self.settings.display.is_json() }
            } else if same_text(kind, "done") || same_text(kind, "failed") {
                let reported: Option<i64> = match get(message, "stream_idx") {
                    Some(stream_idx) => as_i64(stream_idx),
                    None => None,
                };
                match reported {
                    Some(n) => {
                        let idx: u8 = n as u8;
                        if same_text(kind, "failed") {
                            self.results.mark_stream_done(idx, false);
                        }
                        self.results.mark_stream_done_server(idx);
                        if self.results.count_in_progress_streams() == 0
                            && self.results.count_in_progress_streams_server() == 0 {
                            self.complete = true;
                            self.phase = ClientPhase::Closing;
                            TestStep::Completed
                        } else {
                            TestStep::StreamEnded
                        }
                    },
                    None => {
                        self.phase = ClientPhase::Closing;
                        TestStep::Stopped
                    },
                }
            } else if same_text(kind, "ready") {
                TestStep::Ignored
            } else {
                self.phase = ClientPhase::Closing;
                TestStep::Stopped
            },
            None => {
                self.phase = ClientPhase::Closing;
                TestStep::Stopped
            },
        }
    }

    /// Takes note that no message could be received, and gives the reason for
    /// which the run then fails, if it does.
    pub fn on_receive_failure(&mut self) -> (failure: Option<ClientFailure>)
        requires
            old(self).wf(),
            old(self)@.phase == ClientPhase::Connecting || old(self)@.phase
                == ClientPhase::AwaitingReady || old(self)@.phase == ClientPhase::Testing,
        ensures
            final(self).wf(),
            final(self)@ == old(self)@.in_phase(lost_step(old(self)@).0),
            failure == lost_step(old(self)@).1,
    {
        match self.phase {
            ClientPhase::Connecting => {
                self.phase = ClientPhase::Aborted;
                Some(ClientFailure::NoConnection)
            },
            ClientPhase::AwaitingReady => {
                self.phase = ClientPhase::Aborted;
                Some(ClientFailure::ReadyLost)
            },
            _ => if self.complete {
                self.phase = ClientPhase::Closing;
                None
            } else {
                self.phase = ClientPhase::Aborted;
                Some(ClientFailure::ReceiveFailed)
            },
        }
    }

    /// Takes a stream's report.
    pub fn on_report(&mut self, report: StreamReport) -> (step: ReportStep)
        requires
            old(self).wf(),
        ensures
            final(self).wf(),
            final(self)@ == after_report(old(self)@, report),
            step == report_step(old(self)@, report),
    {
        match report {
            StreamReport::Done(idx) => self.results.mark_stream_done(idx, true),
            StreamReport::Failed(idx) => self.results.mark_stream_done(idx, false),
            StreamReport::Interval => {
                return ReportStep::RecordInterval { show: !self.settings.display.is_json() };
            },
        }
        if self.results.count_in_progress_streams() > 0 {
            ReportStep::Waiting
        } else if self.results.count_in_progress_streams_server() > 0 {
            ReportStep::StartKillTimer
        } else {
            ReportStep::AllReported
        }
    }

    /// What to do, in turn, when the session is wound up.
    pub fn closing(&self) -> (steps: Vec<ClosingStep>)
        ensures
            steps@ == closing_steps(self@.begun),
    {
        let mut steps: Vec<ClosingStep> = Vec::new();
        if self.begun {
            steps.push(ClosingStep::SendEnd);
            steps.push(ClosingStep::Disconnect);
        }
        steps.push(ClosingStep::SendEnd);
        steps.push(ClosingStep::Pause);
        steps.push(ClosingStep::Disconnect);
        assert(steps@ =~= closing_steps(self.begun));
        steps
    }

    /// Whether the test was a success, once the session is wound up.
    pub fn outcome(&self) -> (outcome: Result<(), ClientFailure>)
        ensures
            self@.progress.is_success() ==> outcome == Ok::<(), ClientFailure>(()),
            !self@.progress.is_success() ==> outcome == Err::<(), ClientFailure>(
                ClientFailure::TestIncomplete,
            ),
    {
        if self.results.is_success() {
            Ok(())
        } else {
            Err(ClientFailure::TestIncomplete)
        }
    }
}

} // verus!
