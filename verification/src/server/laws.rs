//! What holds of a server's session, whatever the client sends.

use vstd::prelude::*;

use crate::protocol::json::{holds, json_of, lacks, Json};
use crate::protocol::messaging::{
    kind_message, law_messages_hold_their_members, law_senders_follow_ports, lemma_words_differ,
    port_named, says_kind,
};
use crate::protocol::results::TestFamily;
use crate::server::session::{
    after_request, message_is_readable, message_readable, reply_to, request_of, ReceivePlan,
    Request, SendPlan, ServerModel, ServerSession, ServerStep,
};

verus! {

/// The state of a session after a sequence of messages. No message is taken
/// once the session has ended.
pub open spec fn server_after(messages: Seq<Json>) -> ServerModel
    decreases messages.len(),
{
    if messages.len() == 0 {
        ServerModel { started: false, ended: false }
    } else {
        let before = server_after(messages.drop_last());
        if before.ended {
            before
        } else {
            after_request(before, request_of(messages.last()))
        }
    }
}

/// How often streams are started upon a sequence of messages.
pub open spec fn starts(messages: Seq<Json>) -> nat
    decreases messages.len(),
{
    if messages.len() == 0 {
        0
    } else {
        let before = server_after(messages.drop_last());
        let now: nat = if !before.ended && !before.started && request_of(messages.last())
            == Request::Begin {
            1
        } else {
            0
        };
        starts(messages.drop_last()) + now
    }
}

/// Streams are started at most once in a session.
pub proof fn law_streams_start_at_most_once(messages: Seq<Json>)
    ensures
        starts(messages) == (if server_after(messages).started {
            1nat
        } else {
            0nat
        }),
    decreases messages.len(),
{
    if messages.len() > 0 {
        law_streams_start_at_most_once(messages.drop_last());
    }
}

/// A second request to begin ends the session.
pub proof fn law_second_begin_ends_session(messages: Seq<Json>, message: Json)
    requires
        server_after(messages).started,
        request_of(message) == Request::Begin,
    ensures
        server_after(messages.push(message)).ended,
{
    assert(messages.push(message).drop_last() =~= messages);
}

/// Streams are not started without a request to begin.
pub proof fn law_no_start_without_begin(messages: Seq<Json>)
    requires
        forall|i: int|
            0 <= i < messages.len() ==> request_of(#[trigger] messages[i]) != Request::Begin,
    ensures
        !server_after(messages).started,
    decreases messages.len(),
{
    if messages.len() > 0 {
        let front = messages.drop_last();
        assert forall|i: int| 0 <= i < front.len() implies request_of(#[trigger] front[i])
            != Request::Begin by {
            assert(front[i] == messages[i]);
        }
        law_no_start_without_begin(front);
        assert(messages[messages.len() - 1] == messages.last());
    }
}

/// The client's requests to begin and to end are readable and understood.
pub proof fn law_client_requests_are_understood()
    ensures
        message_readable(kind_message("begin"@)),
        message_readable(kind_message("end"@)),
        request_of(kind_message("begin"@)) == Request::Begin,
        request_of(kind_message("end"@)) == Request::End,
{
    lemma_words_differ();
}

/// A text, or nothing, stands under a key.
pub open spec fn is_text_if_any(message: Json, key: Seq<char>) -> bool {
    lacks(message, key) || exists|text: Seq<char>| #[trigger]
        holds(message, key, Json::Text(text))
}

/// Whether a message is a configuration that can be read.
pub open spec fn is_configuration(message: Json) -> bool {
    says_kind(message, "configuration"@) && message_readable(message)
}

/// A configuration asks for UDP exactly if its family is the text "udp", and
/// for TCP if it is "tcp", anything else or absent, whichever side sends.
pub proof fn law_configuration_names_transport(message: Json)
    requires
        is_configuration(message),
    ensures
        match request_of(message) {
            Request::Receive(plan) => {
                &&& holds(message, "family"@, Json::Text("tcp"@)) ==> plan.family == TestFamily::Tcp
                &&& holds(message, "family"@, Json::Text("udp"@)) ==> plan.family == TestFamily::Udp
                &&& plan.family == TestFamily::Udp <==> holds(
                    message,
                    "family"@,
                    Json::Text("udp"@),
                )
            },
            Request::Send { family, .. } => {
                &&& holds(message, "family"@, Json::Text("tcp"@)) ==> family == TestFamily::Tcp
                &&& holds(message, "family"@, Json::Text("udp"@)) ==> family == TestFamily::Udp
                &&& family == TestFamily::Udp <==> holds(message, "family"@, Json::Text("udp"@))
            },
            _ => false,
        },
{
    lemma_configuration_words_differ();
}

/// The server receives exactly if the configuration's role is the text
/// "download" or absent, and sends otherwise.
pub proof fn law_configuration_names_direction(message: Json)
    requires
        is_configuration(message),
    ensures
        request_of(message) is Receive <==> lacks(message, "role"@) || holds(
            message,
            "role"@,
            Json::Text("download"@),
        ),
        request_of(message) is Send <==> !(lacks(message, "role"@) || holds(
            message,
            "role"@,
            Json::Text("download"@),
        )),
{
    lemma_configuration_words_differ();
}

/// A server that receives prepares as many streams as the configuration asks
/// for, or one if it does not say, with the receive buffer that it gives.
pub proof fn law_receivers_are_as_configured(message: Json, plan: ReceivePlan, number: int)
    requires
        is_configuration(message),
        request_of(message) == Request::Receive(plan),
    ensures
        lacks(message, "streams"@) ==> plan.stream_count == 1,
        holds(message, "streams"@, Json::Integer(number)) ==> plan.stream_count == number,
        i64::MIN <= number <= i64::MAX ==> (holds(message, "receive_buffer"@, Json::Integer(number))
            <==> plan.receive_buffer == Some(number as i64)),
        lacks(message, "receive_buffer"@) ==> plan.receive_buffer is None,
{
    lemma_configuration_words_differ();
}

/// A server that sends prepares a stream for each port of the configuration, in
/// order, with the index of its place and the port that is named there, and the
/// send buffer that the configuration gives. Where no port is named, UDP sends
/// to port zero.
pub proof fn law_senders_are_as_configured(message: Json, ports: Seq<Json>, number: int)
    requires
        is_configuration(message),
        request_of(message) is Send,
        holds(message, "stream_ports"@, Json::Array(ports)),
    ensures
        ({
            let made = request_of(message);
            let default: Option<u16> = match made->Send_family {
                TestFamily::Udp => Some(0),
                TestFamily::Tcp => None,
            };
            &&& made->senders.len() == ports.len()
            &&& forall|i: int|
                0 <= i < ports.len() ==> {
                    &&& (#[trigger] made->senders[i]).stream_idx == i % 256
                    &&& made->senders[i].port == (match port_named(ports[i]) {
                        Some(port) => Some(port),
                        None => default,
                    })
                }
            &&& i64::MIN <= number <= i64::MAX ==> (holds(
                message,
                "send_buffer"@,
                Json::Integer(number),
            ) <==> made->send_buffer == Some(number as i64))
            &&& lacks(message, "send_buffer"@) ==> made->send_buffer is None
        }),
{
    lemma_configuration_words_differ();
    law_senders_follow_ports(
        ports,
        match request_of(message)->Send_family {
            TestFamily::Udp => Some(0u16),
            TestFamily::Tcp => None,
        },
    );
}

/// What a message asks for is told by its kind, whatever else it holds.
pub proof fn law_requests_are_told_by_kind(message: Json)
    ensures
        says_kind(message, "begin"@) <==> request_of(message) == Request::Begin,
        says_kind(message, "end"@) <==> request_of(message) == Request::End,
        says_kind(message, "configuration"@) <==> request_of(message) is Receive || request_of(
            message,
        ) is Send,
        request_of(message) == Request::Invalid <==> !says_kind(message, "begin"@) && !says_kind(
            message,
            "end"@,
        ) && !says_kind(message, "configuration"@),
{
    lemma_words_differ();
}

/// A configuration changes nothing; a first request to begin starts the
/// streams; a second one, a request to end and a message without sense end the
/// session and change nothing else.
pub proof fn law_requests_move_session(model: ServerModel, message: Json)
    ensures
        ({
            let after = after_request(model, request_of(message));
            &&& says_kind(message, "configuration"@) ==> after == model
            &&& says_kind(message, "begin"@) && !model.started ==> after == (ServerModel {
                started: true,
                ended: model.ended,
            })
            &&& !says_kind(message, "configuration"@) && !(says_kind(message, "begin"@)
                && !model.started) ==> after == (ServerModel {
                started: model.started,
                ended: true,
            })
        }),
{
    law_requests_are_told_by_kind(message);
}

/// A message can be read exactly if its kind is a text, or absent, and if, in a
/// configuration, role and family are texts, or absent, and the streams are a
/// number that is not negative, or absent, where the server is to receive, and
/// the ports are an array where it is to send.
pub proof fn law_readable_messages(message: Json)
    ensures
        message_readable(message) <==> {
            &&& is_text_if_any(message, "kind"@)
            &&& says_kind(message, "configuration"@) ==> {
                &&& is_text_if_any(message, "role"@)
                &&& is_text_if_any(message, "family"@)
                &&& if lacks(message, "role"@) || holds(
                    message,
                    "role"@,
                    Json::Text("download"@),
                ) {
                    lacks(message, "streams"@) || exists|number: int|
                        0 <= number <= i64::MAX && #[trigger] holds(
                            message,
                            "streams"@,
                            Json::Integer(number),
                        )
                } else {
                    exists|ports: Seq<Json>| #[trigger]
                        holds(message, "stream_ports"@, Json::Array(ports))
                }
            }
        },
{
    lemma_texts_are_read(message, "kind"@);
    lemma_texts_are_read(message, "role"@);
    lemma_texts_are_read(message, "family"@);
    if let Some(streams) = message.member("streams"@) {
        if let Json::Integer(number) = streams {
            assert(holds(message, "streams"@, Json::Integer(number)));
        }
    }
    if let Some(ports) = message.member("stream_ports"@) {
        if let Json::Array(elements) = ports {
            assert(holds(message, "stream_ports"@, Json::Array(elements)));
        }
    }
}

/// A member is a text or absent exactly if it can be read as one.
proof fn lemma_texts_are_read(message: Json, key: Seq<char>)
    ensures
        is_text_if_any(message, key) <==> (message.member(key) is Some ==> message.member(
            key,
        )->0.text() is Some),
{
    if let Some(member) = message.member(key) {
        if let Json::Text(text) = member {
            assert(holds(message, key, Json::Text(text)));
        }
    }
}

/// The words of a configuration are told apart.
proof fn lemma_configuration_words_differ()
    ensures
        "tcp"@ != "udp"@,
{
    reveal_strlit("tcp");
    reveal_strlit("udp");
    assert("tcp"@[0] != "udp"@[0]);
}

/// A session that is handed a configuration goes on as it was and plans what
/// the configuration asks for: to receive, unless it gives another role than
/// "download", over UDP exactly if its family is "udp" and over TCP otherwise.
pub proof fn law_configuration_is_served(
    session: &mut ServerSession,
    message: serde_json::Value,
    step: ServerStep,
)
    requires
        call_ensures(ServerSession::on_message, (session, &message), step),
        is_configuration(json_of(message)),
    ensures
        final(session)@ == old(session)@,
        match step {
            ServerStep::Receive(plan) => {
                &&& lacks(json_of(message), "role"@) || holds(
                    json_of(message),
                    "role"@,
                    Json::Text("download"@),
                )
                &&& plan.family == TestFamily::Udp <==> holds(
                    json_of(message),
                    "family"@,
                    Json::Text("udp"@),
                )
            },
            ServerStep::Send(plan) => {
                &&& !lacks(json_of(message), "role"@)
                &&& !holds(json_of(message), "role"@, Json::Text("download"@))
                &&& plan.family == TestFamily::Udp <==> holds(
                    json_of(message),
                    "family"@,
                    Json::Text("udp"@),
                )
            },
            _ => false,
        },
{
    law_configuration_names_transport(json_of(message));
    law_configuration_names_direction(json_of(message));
    law_requests_move_session(old(session)@, json_of(message));
}

/// The streams that a session plans to receive on are as many as the
/// configuration asks for, or one, with the receive buffer that it gives.
pub proof fn law_planned_receivers_are_as_configured(
    session: &mut ServerSession,
    message: serde_json::Value,
    plan: ReceivePlan,
    number: int,
)
    requires
        call_ensures(ServerSession::on_message, (session, &message), ServerStep::Receive(plan)),
        is_configuration(json_of(message)),
    ensures
        lacks(json_of(message), "streams"@) ==> plan.stream_count == 1,
        holds(json_of(message), "streams"@, Json::Integer(number)) ==> plan.stream_count == number,
        i64::MIN <= number <= i64::MAX ==> (holds(
            json_of(message),
            "receive_buffer"@,
            Json::Integer(number),
        ) <==> plan.receive_buffer == Some(number as i64)),
{
    law_configuration_names_direction(json_of(message));
    law_receivers_are_as_configured(json_of(message), plan, number);
}

/// The streams that a session plans to send on are one for each port of the
/// configuration, in order, with the index of its place and the port that is
/// named there, or port zero for UDP where none is, and with the send buffer
/// that the configuration gives.
pub proof fn law_planned_senders_are_as_configured(
    session: &mut ServerSession,
    message: serde_json::Value,
    plan: SendPlan,
    ports: Seq<Json>,
    number: int,
)
    requires
        call_ensures(ServerSession::on_message, (session, &message), ServerStep::Send(plan)),
        is_configuration(json_of(message)),
        holds(json_of(message), "stream_ports"@, Json::Array(ports)),
    ensures
        plan.senders@.len() == ports.len(),
        forall|i: int|
            0 <= i < ports.len() ==> {
                &&& (#[trigger] plan.senders@[i]).stream_idx == i % 256
                &&& plan.senders@[i].port == (match port_named(ports[i]) {
                    Some(port) => Some(port),
                    None => match plan.family {
                        TestFamily::Udp => Some(0),
                        TestFamily::Tcp => None,
                    },
                })
            },
        i64::MIN <= number <= i64::MAX ==> (holds(
            json_of(message),
            "send_buffer"@,
            Json::Integer(number),
        ) <==> plan.send_buffer == Some(number as i64)),
{
    law_configuration_names_direction(json_of(message));
    law_senders_are_as_configured(json_of(message), ports, number);
}

/// A session starts the streams upon the first request to begin, and ends upon
/// a second one, a request to end and a message without sense, each in its own
/// way.
pub proof fn law_requests_are_served(
    session: &mut ServerSession,
    message: serde_json::Value,
    step: ServerStep,
)
    requires
        call_ensures(ServerSession::on_message, (session, &message), step),
        !says_kind(json_of(message), "configuration"@),
    ensures
        says_kind(json_of(message), "begin"@) && !old(session)@.started ==> step is Start
            && final(session)@.started && final(session)@.ended == old(session)@.ended,
        says_kind(json_of(message), "begin"@) && old(session)@.started ==> step is DuplicateBegin
            && final(session)@.ended,
        says_kind(json_of(message), "end"@) ==> step is End && final(session)@.ended,
        !says_kind(json_of(message), "begin"@) && !says_kind(json_of(message), "end"@)
            ==> step is Invalid && final(session)@.ended,
{
    law_requests_move_session(old(session)@, json_of(message));
    law_requests_are_told_by_kind(json_of(message));
}

/// A new session has neither started nor ended, and a session goes on as long
/// as the run does and it has not ended.
pub proof fn law_session_lasts_until_its_end(
    fresh: ServerSession,
    session: ServerSession,
    alive: bool,
    on: bool,
    ended: bool,
)
    requires
        call_ensures(ServerSession::new, (), fresh),
        call_ensures(ServerSession::goes_on, (&session, alive), on),
        call_ensures(ServerSession::has_ended, (&session,), ended),
    ensures
        !fresh@.started,
        !fresh@.ended,
        ended == session@.ended,
        on <==> alive && !ended,
{
}

/// The client is answered by what was done: with the ports in order where
/// streams receive, with notices where they send and where they have started,
/// with the end of stream zero at the end, and not at all otherwise.
pub proof fn law_steps_are_answered(
    step: ServerStep,
    ports: Vec<u16>,
    reply: Option<serde_json::Value>,
)
    requires
        call_ensures(reply_to, (&step, &ports), reply),
    ensures
        step is DuplicateBegin || step is Invalid <==> reply is None,
        step is Receive ==> says_kind(json_of(reply->0), "connect"@) && holds(
            json_of(reply->0),
            "stream_ports"@,
            Json::Array(Seq::new(ports@.len(), |i: int| Json::Integer(ports@[i] as int))),
        ),
        step is Send ==> says_kind(json_of(reply->0), "connect-ready"@),
        step is Start ==> says_kind(json_of(reply->0), "ready"@),
        step is End ==> says_kind(json_of(reply->0), "done"@) && holds(
            json_of(reply->0),
            "stream_idx"@,
            Json::Integer(0),
        ),
{
    law_messages_hold_their_members("connect-ready"@, ports@, 0, "kind"@);
    law_messages_hold_their_members("ready"@, ports@, 0, "kind"@);
    law_messages_hold_their_members("done"@, ports@, 0, "kind"@);
}

/// The test whether a message can be read tells just that.
pub proof fn law_readability_is_told(message: serde_json::Value, readable: bool)
    requires
        call_ensures(message_is_readable, (&message,), readable),
    ensures
        readable == message_readable(json_of(message)),
{
}

} // verus!
