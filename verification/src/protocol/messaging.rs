//! The messages of the control channel.

use vstd::prelude::*;

use crate::protocol::json::{
    array, as_i64, as_str, get, holds, insert_member, integer, is_flat, json_of, jsons_of, lacks,
    members_of, no_members, object, text, Json,
};

verus! {

/// The kind that a message says it has, if it says one. A kind that is no text
/// counts as the empty text.
pub open spec fn kind_of(message: Json) -> Option<Seq<char>> {
    match message.member("kind"@) {
        Some(kind) => match kind.text() {
            Some(chars) => Some(chars),
            None => Some(seq![]),
        },
        None => None,
    }
}

/// The kind that a message says it has, if it says one as a text.
pub open spec fn text_kind_of(message: Json) -> Option<Seq<char>> {
    match message.member("kind"@) {
        Some(kind) => kind.text(),
        None => None,
    }
}

/// The kind that a message says it has, where one that is no text counts as
/// the empty text.
pub fn message_kind(message: &serde_json::Value) -> (kind: Option<&str>)
    ensures
        match kind_of(json_of(*message)) {
            Some(chars) => kind matches Some(text) && text@ == chars,
            None => kind is None,
        },
{
    match get(message, "kind") {
        Some(kind) => match as_str(kind) {
            Some(text) => Some(text),
            None => {
                proof {
                    reveal_strlit("");
                    assert(""@ =~= seq![]);
                }
                Some("")
            },
        },
        None => None,
    }
}

/// The kind that a message says it has, if it says one as a text.
pub fn message_text_kind(message: &serde_json::Value) -> (kind: Option<&str>)
    ensures
        match text_kind_of(json_of(*message)) {
            Some(chars) => kind matches Some(text) && text@ == chars,
            None => kind is None,
        },
{
    match get(message, "kind") {
        Some(kind) => as_str(kind),
        None => None,
    }
}

/// Where a stream is to send to.
#[derive(Debug, PartialEq, Eq, Structural, Clone, Copy)]
pub struct SenderPlan {
    pub stream_idx: u8,
    /// The port, if the peer names one.
    pub port: Option<u16>,
}

/// The port that an element of an array names: an integer, reduced to 16 bits,
/// or `default` where there is none.
pub open spec fn port_of(element: Json, default: Option<u16>) -> Option<u16> {
    match element.signed() {
        Some(n) => Some(n as u16),
        None => default,
    }
}

/// The streams that send to the ports in an array. The index of a stream is
/// its place, reduced to eight bits.
pub open spec fn sender_plans(ports: Seq<Json>, default: Option<u16>) -> Seq<SenderPlan> {
    Seq::new(
        ports.len(),
        |i: int| SenderPlan { stream_idx: (i % 256) as u8, port: port_of(ports[i], default) },
    )
}

/// The index of the stream at place `i`: eight bits of it.
pub fn stream_index(i: usize) -> (stream_idx: u8)
    ensures
        stream_idx == i % 256,
{
    (i % 256) as u8
}

/// The streams that send to the given ports.
pub(crate) fn plan_senders(ports: &Vec<serde_json::Value>, default: Option<u16>) -> (plans: Vec<
    SenderPlan,
>)
    ensures
        plans@ == sender_plans(jsons_of(ports@), default),
{
    let mut plans: Vec<SenderPlan> = Vec::new();
    let mut i: usize = 0;
    while i < ports.len()
        invariant
            i <= ports@.len(),
            plans@ == sender_plans(jsons_of(ports@), default).take(i as int),
        decreases ports@.len() - i,
    {
        let port: Option<u16> = match as_i64(&ports[i]) {
            Some(n) => Some(n as u16),
            None => default,
        };
        plans.push(SenderPlan { stream_idx: stream_index(i), port });
        assert(plans@ =~= sender_plans(jsons_of(ports@), default).take(i + 1));
        i = i + 1;
    }
    assert(plans@ =~= sender_plans(jsons_of(ports@), default));
    plans
}

/// A message that says its kind and nothing else.
pub open spec fn kind_message(kind: Seq<char>) -> Json {
    Json::Object(map!["kind"@ => Json::Text(kind)])
}

/// The offer of a port for each stream.
pub open spec fn connect_message(ports: Seq<u16>) -> Json {
    Json::Object(
        map!["kind"@ => Json::Text("connect"@), "stream_ports"@ => Json::Array(port_list(ports))],
    )
}

/// The ports as the elements of an array.
pub open spec fn port_list(ports: Seq<u16>) -> Seq<Json> {
    ports.map_values(|port: u16| Json::Integer(port as int))
}

/// The report that a stream has ended at the server, well or not by its kind.
pub open spec fn end_message(kind: Seq<char>, stream_idx: u8) -> Json {
    Json::Object(
        map!["kind"@ => Json::Text(kind), "stream_idx"@ => Json::Integer(stream_idx as int)],
    )
}

/// A message of the kind `kind`.
fn message_of_kind(kind: &str) -> (message: serde_json::Value)
    ensures
        json_of(message) == kind_message(kind@),
{
    let mut members = no_members();
    insert_member(&mut members, "kind".to_owned(), text(kind));
    assert(members_of(members) =~= map!["kind"@ => Json::Text(kind@)]);
    object(members)
}

/// The client's request that the test begin.
pub fn prepare_begin() -> (message: serde_json::Value)
    ensures
        json_of(message) == kind_message("begin"@),
{
    message_of_kind("begin")
}

/// The client's notice that the test is over.
pub fn prepare_end() -> (message: serde_json::Value)
    ensures
        json_of(message) == kind_message("end"@),
{
    message_of_kind("end")
}

/// The server's notice that its streams have started.
pub fn prepare_ready() -> (message: serde_json::Value)
    ensures
        json_of(message) == kind_message("ready"@),
{
    message_of_kind("ready")
}

/// The server's notice that it has taken the client's ports.
pub fn prepare_connect_ready() -> (message: serde_json::Value)
    ensures
        json_of(message) == kind_message("connect-ready"@),
{
    message_of_kind("connect-ready")
}

/// The report of the kind `kind` on stream `stream_idx`.
fn message_on_stream(kind: &str, stream_idx: u8) -> (message: serde_json::Value)
    ensures
        json_of(message) == end_message(kind@, stream_idx),
{
    let mut members = no_members();
    insert_member(&mut members, "kind".to_owned(), text(kind));
    insert_member(&mut members, "stream_idx".to_owned(), integer(stream_idx as u64));
    assert(members_of(members)
        =~= map!["kind"@ => Json::Text(kind@), "stream_idx"@ => Json::Integer(stream_idx as int)]);
    object(members)
}

/// The server's report that stream `stream_idx` has ended well.
pub fn prepare_done(stream_idx: u8) -> (message: serde_json::Value)
    ensures
        json_of(message) == end_message("done"@, stream_idx),
{
    message_on_stream("done", stream_idx)
}

/// The server's report that stream `stream_idx` has failed.
pub fn prepare_failed(stream_idx: u8) -> (message: serde_json::Value)
    ensures
        json_of(message) == end_message("failed"@, stream_idx),
{
    message_on_stream("failed", stream_idx)
}

/// The ports as a JSON array.
pub fn ports_array(ports: &Vec<u16>) -> (value: serde_json::Value)
    ensures
        json_of(value) == Json::Array(port_list(ports@)),
{
    let mut elements: Vec<serde_json::Value> = Vec::new();
    let mut i: usize = 0;
    while i < ports.len()
        invariant
            i <= ports@.len(),
            jsons_of(elements@) == port_list(ports@.take(i as int)),
        decreases ports@.len() - i,
    {
        let element = integer(ports[i] as u64);
        assert(jsons_of(elements@.push(element)) =~= jsons_of(elements@).push(json_of(element)));
        assert(port_list(ports@.take(i + 1)) =~= port_list(ports@.take(i as int)).push(
            Json::Integer(ports@[i as int] as int),
        ));
        elements.push(element);
        i = i + 1;
    }
    assert(ports@.take(i as int) =~= ports@);
    array(elements)
}

/// The server's offer of a port for each stream.
pub fn prepare_connect(stream_ports: &Vec<u16>) -> (message: serde_json::Value)
    ensures
        json_of(message) == connect_message(stream_ports@),
{
    let mut members = no_members();
    insert_member(&mut members, "kind".to_owned(), text("connect"));
    insert_member(&mut members, "stream_ports".to_owned(), ports_array(stream_ports));
    assert(members_of(members)
        =~= map!["kind"@ => Json::Text("connect"@), "stream_ports"@ => Json::Array(port_list(stream_ports@))]);
    object(members)
}

/// The kinds of messages, and the keys of their members, are told apart.
pub(crate) proof fn lemma_words_differ()
    ensures
        "kind"@ != "stream_idx"@,
        "kind"@ != "stream_ports"@,
        "connect"@ != "connect-ready"@,
        "configuration"@ != "begin"@,
        "configuration"@ != "end"@,
        "begin"@ != "end"@,
        "ready"@ != "receive"@,
        "ready"@ != "send"@,
        "ready"@ != "done"@,
        "ready"@ != "failed"@,
        "done"@ != "receive"@,
        "done"@ != "send"@,
        "done"@ != "failed"@,
        "failed"@ != "receive"@,
        "failed"@ != "send"@,
{
    reveal_strlit("kind");
    reveal_strlit("stream_idx");
    reveal_strlit("stream_ports");
    reveal_strlit("connect");
    reveal_strlit("connect-ready");
    reveal_strlit("configuration");
    reveal_strlit("begin");
    reveal_strlit("end");
    reveal_strlit("ready");
    reveal_strlit("receive");
    reveal_strlit("send");
    reveal_strlit("done");
    reveal_strlit("failed");
    assert("kind"@.len() == 4 && "stream_idx"@.len() == 10 && "stream_ports"@.len() == 12);
    assert("connect"@.len() == 7 && "connect-ready"@.len() == 13);
    assert("configuration"@.len() == 13 && "begin"@.len() == 5 && "end"@.len() == 3);
    assert("ready"@.len() == 5 && "receive"@.len() == 7 && "failed"@.len() == 6);
    assert("send"@.len() == 4 && "done"@.len() == 4 && "send"@[0] != "done"@[0]);
}

/// Whether a message says that it is of the kind `kind`.
pub open spec fn says_kind(message: Json, kind: Seq<char>) -> bool {
    holds(message, "kind"@, Json::Text(kind))
}

/// The port that an element of an array names: what is left by 65536 of an
/// integer that a signed 64-bit number can hold. No other element names one.
pub open spec fn port_named(element: Json) -> Option<u16> {
    match element {
        Json::Integer(number) => if i64::MIN <= number <= i64::MAX {
            Some((number % 65536) as u16)
        } else {
            None
        },
        _ => None,
    }
}

/// There is a sender for each port, in order. Its index is its place, by what
/// is left of it by 256, and its port is the one that is named there, or the
/// default where none is.
pub proof fn law_senders_follow_ports(ports: Seq<Json>, default: Option<u16>)
    ensures
        sender_plans(ports, default).len() == ports.len(),
        forall|i: int|
            0 <= i < ports.len() ==> {
                &&& (#[trigger] sender_plans(ports, default)[i]).stream_idx == i % 256
                &&& sender_plans(ports, default)[i].port == (match port_named(ports[i]) {
                    Some(port) => Some(port),
                    None => default,
                })
            },
{
    assert forall|i: int| 0 <= i < ports.len() implies (#[trigger] sender_plans(
        ports,
        default,
    )[i]).stream_idx == i % 256 && sender_plans(ports, default)[i].port == (match port_named(
        ports[i],
    ) {
        Some(port) => Some(port),
        None => default,
    }) by {
        if let Some(n) = ports[i].signed() {
            assert(n as u16 == n % 65536) by (bit_vector);
        }
    }
}

/// The messages that the library makes are objects with the members that they
/// are meant to have and no others: a kind, and with an offer its ports in
/// order, and with the report of an end the number of its stream.
pub proof fn law_messages_hold_their_members(
    kind: Seq<char>,
    ports: Seq<u16>,
    stream_idx: u8,
    key: Seq<char>,
)
    ensures
        says_kind(kind_message(kind), kind),
        key != "kind"@ ==> lacks(kind_message(kind), key),
        says_kind(end_message(kind, stream_idx), kind),
        holds(end_message(kind, stream_idx), "stream_idx"@, Json::Integer(stream_idx as int)),
        key != "kind"@ && key != "stream_idx"@ ==> lacks(end_message(kind, stream_idx), key),
        says_kind(connect_message(ports), "connect"@),
        holds(
            connect_message(ports),
            "stream_ports"@,
            Json::Array(Seq::new(ports.len(), |i: int| Json::Integer(ports[i] as int))),
        ),
        key != "kind"@ && key != "stream_ports"@ ==> lacks(connect_message(ports), key),
{
    lemma_words_differ();
    assert(port_list(ports) =~= Seq::new(ports.len(), |i: int| Json::Integer(ports[i] as int)));
}

/// The messages that the library makes are flat, so they can be read back from
/// their text.
pub proof fn law_messages_are_flat(kind: Seq<char>, ports: Seq<u16>, stream_idx: u8)
    ensures
        is_flat(kind_message(kind)),
        is_flat(connect_message(ports)),
        is_flat(end_message(kind, stream_idx)),
{
}

/// The kind of a message is read where it is a text; where it is something
/// else, one reader gives the empty text and the other nothing, and where it is
/// absent, both give nothing.
pub proof fn law_kinds_are_read(
    message: serde_json::Value,
    kind: Option<&str>,
    text_kind: Option<&str>,
    chars: Seq<char>,
)
    requires
        call_ensures(message_kind, (&message,), kind),
        call_ensures(message_text_kind, (&message,), text_kind),
    ensures
        says_kind(json_of(message), chars) <==> (text_kind matches Some(text) && text@ == chars),
        says_kind(json_of(message), chars) ==> (kind matches Some(text) && text@ == chars),
        lacks(json_of(message), "kind"@) <==> kind is None,
        kind is Some && text_kind is None ==> kind->0@.len() == 0,
{
}

/// Each of the messages says its own kind, and those on a stream its number;
/// the index of a stream is what is left of its place by 256.
pub proof fn law_messages_say_what_they_are(
    begin: serde_json::Value,
    end: serde_json::Value,
    ready: serde_json::Value,
    connect_ready: serde_json::Value,
    stream_idx: u8,
    done: serde_json::Value,
    failed: serde_json::Value,
    ports: Vec<u16>,
    connect: serde_json::Value,
    listed: serde_json::Value,
    i: usize,
    index: u8,
)
    requires
        call_ensures(prepare_begin, (), begin),
        call_ensures(prepare_end, (), end),
        call_ensures(prepare_ready, (), ready),
        call_ensures(prepare_connect_ready, (), connect_ready),
        call_ensures(prepare_done, (stream_idx,), done),
        call_ensures(prepare_failed, (stream_idx,), failed),
        call_ensures(prepare_connect, (&ports,), connect),
        call_ensures(ports_array, (&ports,), listed),
        call_ensures(stream_index, (i,), index),
    ensures
        json_of(begin) == Json::Object(map!["kind"@ => Json::Text("begin"@)]),
        json_of(end) == Json::Object(map!["kind"@ => Json::Text("end"@)]),
        json_of(ready) == Json::Object(map!["kind"@ => Json::Text("ready"@)]),
        json_of(connect_ready) == Json::Object(map!["kind"@ => Json::Text("connect-ready"@)]),
        says_kind(json_of(done), "done"@),
        holds(json_of(done), "stream_idx"@, Json::Integer(stream_idx as int)),
        says_kind(json_of(failed), "failed"@),
        holds(json_of(failed), "stream_idx"@, Json::Integer(stream_idx as int)),
        says_kind(json_of(connect), "connect"@),
        holds(json_of(connect), "stream_ports"@, json_of(listed)),
        json_of(listed) == Json::Array(
            Seq::new(ports@.len(), |k: int| Json::Integer(ports@[k] as int)),
        ),
        index == i % 256,
{
    law_messages_hold_their_members("done"@, ports@, stream_idx, "kind"@);
    law_messages_hold_their_members("failed"@, ports@, stream_idx, "kind"@);
    assert(port_list(ports@) =~= Seq::new(ports@.len(), |k: int| Json::Integer(ports@[k] as int)));
}

} // verus!
