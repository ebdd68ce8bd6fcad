//! The server's decisions for one client.
//!
//! The program around this module talks to the client and to the streams. It
//! hands a [`ServerSession`] the messages and does what the session answers.

use vstd::prelude::*;

use crate::protocol::json::{as_array, as_i64, as_str, get, json_of, Json};
use crate::protocol::messaging::{
    connect_message, end_message, kind_message, message_text_kind, plan_senders, prepare_connect,
    prepare_connect_ready, prepare_done, prepare_ready, sender_plans, text_kind_of, SenderPlan,
};
use crate::protocol::results::TestFamily;
use crate::utils::text::same_text;

verus! {

/// Streams that receive from the client.
#[derive(Debug, PartialEq, Eq, Structural, Clone, Copy)]
pub struct ReceivePlan {
    pub family: TestFamily,
    /// How many streams to prepare.
    pub stream_count: u64,
    /// The receive buffer of each stream, if the client gives one.
    pub receive_buffer: Option<i64>,
}

/// Streams that send to the client.
#[derive(Debug)]
pub struct SendPlan {
    pub family: TestFamily,
    /// One stream for each.
    pub senders: Vec<SenderPlan>,
    /// The send buffer of each stream, if the client gives one.
    pub send_buffer: Option<i64>,
}

/// What to do upon a message.
#[derive(Debug)]
pub enum ServerStep {
    /// Prepare receivers, then offer the client their ports.
    Receive(ReceivePlan),
    /// Prepare senders, then tell the client so.
    Send(SendPlan),
    /// Start the streams that are prepared, then tell the client so.
    Start,
    /// End the session: the test has been requested before.
    DuplicateBegin,
    /// Stop the streams, tell the client so, and end the session.
    End,
    /// End the session: the message makes no sense.
    Invalid,
}

/// What a message asks of the server.
pub enum Request {
    Receive(ReceivePlan),
    Send { family: TestFamily, senders: Seq<SenderPlan>, send_buffer: Option<i64> },
    Begin,
    End,
    Invalid,
}

/// The state of a session.
#[derive(Debug, PartialEq, Eq, Structural, Clone, Copy)]
pub struct ServerModel {
    /// The streams have been started.
    pub started: bool,
    /// The session has ended.
    pub ended: bool,
}

/// The text of a member, or `default` where it is absent.
pub open spec fn text_or(message: Json, key: Seq<char>, default: Seq<char>) -> Option<Seq<char>> {
    match message.member(key) {
        Some(member) => member.text(),
        None => Some(default),
    }
}

/// The integer that a member holds, or `default` where it is absent.
pub open spec fn signed_or(message: Json, key: Seq<char>, default: i64) -> Option<i64> {
    match message.member(key) {
        Some(member) => member.signed(),
        None => Some(default),
    }
}

/// The integer that a member holds, if it is there and holds one.
pub open spec fn signed_member(message: Json, key: Seq<char>) -> Option<i64> {
    match message.member(key) {
        Some(member) => member.signed(),
        None => None,
    }
}

/// The transport that a configuration asks for; TCP, unless it says UDP.
pub open spec fn family_of(message: Json) -> TestFamily {
    if text_or(message, "family"@, "tcp"@) == Some("udp"@) {
        TestFamily::Udp
    } else {
        TestFamily::Tcp
    }
}

/// The port to send to where the client names none: zero for UDP, and no port
/// for TCP.
pub open spec fn default_port(family: TestFamily) -> Option<u16> {
    match family {
        TestFamily::Udp => Some(0),
        TestFamily::Tcp => None,
    }
}

/// Whether a configuration has the client send: it does, unless it gives
/// another role.
pub open spec fn is_download(message: Json) -> bool {
    text_or(message, "role"@, "download"@) == Some("download"@)
}

/// What a configuration asks of the server.
pub open spec fn configuration_request(message: Json) -> Request {
    if is_download(message) {
        Request::Receive(
            ReceivePlan {
                family: family_of(message),
                stream_count: signed_or(message, "streams"@, 1)->0 as u64,
                receive_buffer: signed_member(message, "receive_buffer"@),
            },
        )
    } else {
        Request::Send {
            family: family_of(message),
            senders: sender_plans(
                message.member("stream_ports"@)->0.elements()->0,
                default_port(family_of(message)),
            ),
            send_buffer: signed_member(message, "send_buffer"@),
        }
    }
}

/// What a message asks of the server.
pub open spec fn request_of(message: Json) -> Request {
    match text_kind_of(message) {
        Some(kind) => if kind == "configuration"@ {
            configuration_request(message)
        } else if kind == "begin"@ {
            Request::Begin
        } else if kind == "end"@ {
            Request::End
        } else {
            Request::Invalid
        },
        None => Request::Invalid,
    }
}

/// Whether a configuration holds what is read of it in the form in which it is
/// read.
pub open spec fn configuration_readable(message: Json) -> bool {
    &&& text_or(message, "role"@, "download"@) is Some
    &&& text_or(message, "family"@, "tcp"@) is Some
    &&& if is_download(message) {
        signed_or(message, "streams"@, 1) matches Some(count) && count >= 0
    } else {
        message.member("stream_ports"@) matches Some(ports) && ports.elements() is Some
    }
}

/// Whether a message holds what is read of it in the form in which it is read.
pub open spec fn message_readable(message: Json) -> bool {
    &&& message.member("kind"@) is Some ==> text_kind_of(message) is Some
    &&& text_kind_of(message) == Some("configuration"@) ==> configuration_readable(message)
}

/// The state after a message that asks for `request`.
pub open spec fn after_request(model: ServerModel, request: Request) -> ServerModel {
    match request {
        Request::Receive(_) | Request::Send { .. } => model,
        Request::Begin => if model.started {
            ServerModel { ended: true, ..model }
        } else {
            ServerModel { started: true, ..model }
        },
        Request::End | Request::Invalid => ServerModel { ended: true, ..model },
    }
}

/// The server's side of one test.
#[derive(Debug)]
pub struct ServerSession {
    started: bool,
    ended: bool,
}

impl View for ServerSession {
    type V = ServerModel;

    closed spec fn view(&self) -> ServerModel {
        ServerModel { started: self.started, ended: self.ended }
    }
}

impl ServerSession {
    /// A session in which nothing has been asked for.
    pub fn new() -> (session: ServerSession)
        ensures
            session@ == (ServerModel { started: false, ended: false }),
    {
        ServerSession { started: false, ended: false }
    }

    /// Whether the session has ended.
    pub fn has_ended(&self) -> (ended: bool)
        ensures
            ended == self@.ended,
    {
        self.ended
    }

    /// Whether the next message is received: as long as the run goes on and
    /// the session has not ended.
    pub fn goes_on(&self, alive: bool) -> (on: bool)
        ensures
            on == (alive && !self@.ended),
    {
        alive && !self.ended
    }

    /// Takes a message from the client.
    pub fn on_message(&mut self, message: &serde_json::Value) -> (step: ServerStep)
        requires
            !old(self)@.ended,
            message_readable(json_of(*message)),
        ensures
            final(self)@ == after_request(old(self)@, request_of(json_of(*message))),
            match request_of(json_of(*message)) {
                Request::Receive(plan) => step matches ServerStep::Receive(made) && made == plan,
                Request::Send { family, senders, send_buffer } => step matches ServerStep::Send(
                    made,
                ) && made.family == family && made.senders@ == senders && made.send_buffer
                    == send_buffer,
                Request::Begin => if old(self)@.started {
                    step matches ServerStep::DuplicateBegin
                } else {
                    step matches ServerStep::Start
                },
                Request::End => step matches ServerStep::End,
                Request::Invalid => step matches ServerStep::Invalid,
            },
    {
        match message_text_kind(message) {
            Some(kind) => if same_text(kind, "configuration") {
                plan_configuration(message)
            } else if same_text(kind, "begin") {
                if !self.started {
                    self.started = true;
                    ServerStep::Start
                } else {
                    self.ended = true;
                    ServerStep::DuplicateBegin
                }
            } else if same_text(kind, "end") {
                self.ended = true;
                ServerStep::End
            } else {
                self.ended = true;
                ServerStep::Invalid
            },
            None => {
                self.ended = true;
                ServerStep::Invalid
            },
        }
    }
}

/// What the client is answered once a step is done, where the streams that
/// were prepared receive at `stream_ports`.
pub fn reply_to(step: &ServerStep, stream_ports: &Vec<u16>) -> (reply: Option<serde_json::Value>)
    ensures
        match *step {
            ServerStep::Receive(_) => reply matches Some(message) && json_of(message)
                == connect_message(stream_ports@),
            ServerStep::Send(_) => reply matches Some(message) && json_of(message) == kind_message(
                "connect-ready"@,
            ),
            ServerStep::Start => reply matches Some(message) && json_of(message) == kind_message(
                "ready"@,
            ),
            ServerStep::End => reply matches Some(message) && json_of(message) == end_message(
                "done"@,
                0,
            ),
            ServerStep::DuplicateBegin | ServerStep::Invalid => reply is None,
        },
{
    match step {
        ServerStep::Receive(_) => Some(prepare_connect(stream_ports)),
        ServerStep::Send(_) => Some(prepare_connect_ready()),
        ServerStep::Start => Some(prepare_ready()),
        ServerStep::End => Some(prepare_done(0)),
        ServerStep::DuplicateBegin | ServerStep::Invalid => None,
    }
}

/// Whether a member, or `default` where it is absent, is the text `wanted`.
fn text_member_is(message: &serde_json::Value, key: &str, default: &str, wanted: &str) -> (is: bool)
    ensures
        is == (text_or(json_of(*message), key@, default@) == Some(wanted@)),
{
    match get(message, key) {
        Some(member) => match as_str(member) {
            Some(text) => same_text(text, wanted),
            None => false,
        },
        None => same_text(default, wanted),
    }
}

/// The integer that a member holds, if it is there and holds one.
fn read_signed_member(message: &serde_json::Value, key: &str) -> (found: Option<i64>)
    ensures
        found == signed_member(json_of(*message), key@),
{
    match get(message, key) {
        Some(member) => as_i64(member),
        None => None,
    }
}

/// The integer that a member holds, or `default` where it is absent.
fn read_signed_or(message: &serde_json::Value, key: &str, default: i64) -> (found: Option<i64>)
    ensures
        found == signed_or(json_of(*message), key@, default),
{
    match get(message, key) {
        Some(member) => as_i64(member),
        None => Some(default),
    }
}

/// The transport that a configuration asks for.
fn read_family(message: &serde_json::Value) -> (family: TestFamily)
    ensures
        family == family_of(json_of(*message)),
{
    if text_member_is(message, "family", "tcp", "udp") {
        TestFamily::Udp
    } else {
        TestFamily::Tcp
    }
}

/// What to do upon a configuration.
fn plan_configuration(message: &serde_json::Value) -> (step: ServerStep)
    requires
        configuration_readable(json_of(*message)),
    ensures
        match configuration_request(json_of(*message)) {
            Request::Receive(plan) => step matches ServerStep::Receive(made) && made == plan,
            Request::Send { family, senders, send_buffer } => step matches ServerStep::Send(made)
                && made.family == family && made.senders@ == senders && made.send_buffer
                == send_buffer,
            _ => false,
        },
{
    let family = read_family(message);
    if text_member_is(message, "role", "download", "download") {
        let stream_count: u64 = match read_signed_or(message, "streams", 1) {
            Some(count) => count as u64,
            None => 0,
        };
        let receive_buffer = read_signed_member(message, "receive_buffer");
        ServerStep::Receive(ReceivePlan { family, stream_count, receive_buffer })
    } else {
        let default: Option<u16> = match family {
            TestFamily::Udp => Some(0),
            TestFamily::Tcp => None,
        };
        let senders = match get(message, "stream_ports") {
            Some(stream_ports) => match as_array(stream_ports) {
                Some(ports) => plan_senders(ports, default),
                None => Vec::new(),
            },
            None => Vec::new(),
        };
        let send_buffer = read_signed_member(message, "send_buffer");
        ServerStep::Send(SendPlan { family, senders, send_buffer })
    }
}

/// Whether a member is absent or a text.
fn is_text_or_absent(message: &serde_json::Value, key: &str) -> (ok: bool)
    ensures
        ok == (json_of(*message).member(key@) matches Some(member) ==> member.text() is Some),
{
    match get(message, key) {
        Some(member) => as_str(member).is_some(),
        None => true,
    }
}

/// Whether a configuration holds what is read of it in the form in which it is
/// read.
fn configuration_is_readable(message: &serde_json::Value) -> (readable: bool)
    ensures
        readable == configuration_readable(json_of(*message)),
{
    if !is_text_or_absent(message, "role") || !is_text_or_absent(message, "family") {
        return false;
    }
    if text_member_is(message, "role", "download", "download") {
        match read_signed_or(message, "streams", 1) {
            Some(count) => count >= 0,
            None => false,
        }
    } else {
        match get(message, "stream_ports") {
            Some(stream_ports) => as_array(stream_ports).is_some(),
            None => false,
        }
    }
}

/// Whether a message holds what is read of it in the form in which it is read.
pub fn message_is_readable(message: &serde_json::Value) -> (readable: bool)
    ensures
        readable == message_readable(json_of(*message)),
{
    match get(message, "kind") {
        Some(kind) => match as_str(kind) {
            Some(kind) => if same_text(kind, "configuration") {
                configuration_is_readable(message)
            } else {
                true
            },
            None => false,
        },
        None => true,
    }
}

} // verus!
