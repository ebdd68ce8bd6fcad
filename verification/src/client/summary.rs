//! What the client puts into and reports of a test's configuration.

use vstd::prelude::*;

use crate::protocol::json::{
    as_i64, boolean, get_member, holds, insert_member, integer, json_of, lacks, members_of,
    no_members, null, object, remove_member, Json,
};
use crate::protocol::messaging::{port_list, ports_array};

verus! {

/// What stands under a key, or null where the key is absent.
pub open spec fn member_or_null(members: Map<Seq<char>, Json>, key: Seq<char>) -> Json {
    if members.contains_key(key) {
        members[key]
    } else {
        Json::Null
    }
}

/// The members that both configurations share, as they are reported.
pub open spec fn common_report(upload: Map<Seq<char>, Json>) -> Json {
    Json::Object(
        map![
            "family"@ => member_or_null(upload, "family"@),
            "length"@ => member_or_null(upload, "length"@),
            "streams"@ => member_or_null(upload, "streams"@),
        ],
    )
}

/// The members that are not reported of a download configuration.
pub open spec fn unreported_keys() -> Set<Seq<char>> {
    set!["family"@, "kind"@, "length"@, "role"@, "streams"@, "test_id"@]
}

/// A configuration without the keys in `dropped`, and without the buffer size
/// under `buffer` if that is zero.
pub open spec fn reported(
    members: Map<Seq<char>, Json>,
    dropped: Set<Seq<char>>,
    buffer: Seq<char>,
) -> Map<Seq<char>, Json> {
    let rest = members.remove_keys(dropped);
    if members[buffer].signed() == Some(0i64) {
        rest.remove(buffer)
    } else {
        rest
    }
}

/// An upload configuration as it is reported.
pub open spec fn upload_report(members: Map<Seq<char>, Json>) -> Map<Seq<char>, Json> {
    reported(members, unreported_keys().insert("stream_ports"@), "send_buffer"@)
}

/// A download configuration as it is reported.
pub open spec fn download_report(members: Map<Seq<char>, Json>) -> Map<Seq<char>, Json> {
    reported(members, unreported_keys(), "receive_buffer"@)
}

/// Whether an integer stands under a key.
pub open spec fn has_integer(members: Map<Seq<char>, Json>, key: Seq<char>) -> bool {
    members.contains_key(key) && members[key].signed() is Some
}

/// The keys of a configuration are different texts.
proof fn lemma_keys_differ()
    ensures
        "family"@ != "kind"@,
        "family"@ != "length"@,
        "family"@ != "role"@,
        "family"@ != "streams"@,
        "kind"@ != "length"@,
        "kind"@ != "role"@,
        "kind"@ != "streams"@,
        "length"@ != "role"@,
        "length"@ != "streams"@,
        "role"@ != "streams"@,
        !unreported_keys().contains("send_buffer"@),
        !unreported_keys().contains("receive_buffer"@),
        "send_buffer"@ != "stream_ports"@,
{
    reveal_strlit("family");
    reveal_strlit("kind");
    reveal_strlit("length");
    reveal_strlit("role");
    reveal_strlit("streams");
    reveal_strlit("test_id");
    reveal_strlit("stream_ports");
    reveal_strlit("send_buffer");
    reveal_strlit("receive_buffer");
    assert("family"@[0] != "length"@[0]);
    assert("kind"@[0] != "role"@[0]);
    assert forall|key: Seq<char>| #[trigger] unreported_keys().contains(key) implies key.len()
        <= 7 by {
        assert(key == "family"@ || key == "kind"@ || key == "length"@ || key == "role"@ || key
            == "streams"@ || key == "test_id"@);
    }
    assert("send_buffer"@.len() == 11);
    assert("receive_buffer"@.len() == 14);
}

/// The given value, or null.
fn value_or_null(value: Option<serde_json::Value>) -> (present: serde_json::Value)
    ensures
        json_of(present) == (match value {
            Some(inner) => json_of(inner),
            None => Json::Null,
        }),
{
    match value {
        Some(inner) => inner,
        None => null(),
    }
}

/// Drops the buffer size under `buffer` if it is zero.
fn drop_zero_buffer(members: &mut serde_json::Map<String, serde_json::Value>, buffer: &str)
    requires
        has_integer(members_of(*old(members)), buffer@),
    ensures
        members_of(*final(members)) == (if members_of(*old(members))[buffer@].signed() == Some(0i64) {
            members_of(*old(members)).remove(buffer@)
        } else {
            members_of(*old(members))
        }),
{
    let size: Option<i64> = match get_member(members, buffer) {
        Some(value) => as_i64(value),
        None => None,
    };
    if size == Some(0) {
        remove_member(members, buffer);
    }
}

/// Takes from both configurations what is not reported of them, and gives what
/// they share.
pub fn report_configurations(
    upload: &mut serde_json::Map<String, serde_json::Value>,
    download: &mut serde_json::Map<String, serde_json::Value>,
) -> (common: serde_json::Value)
    requires
        has_integer(members_of(*old(upload)), "send_buffer"@),
        has_integer(members_of(*old(download)), "receive_buffer"@),
    ensures
        json_of(common) == common_report(members_of(*old(upload))),
        members_of(*final(upload)) == upload_report(members_of(*old(upload))),
        members_of(*final(download)) == download_report(members_of(*old(download))),
{
    let ghost whole_upload = members_of(*upload);
    let ghost whole_download = members_of(*download);
    proof {
        lemma_keys_differ();
    }
    let family = remove_member(upload, "family");
    remove_member(upload, "kind");
    let length = remove_member(upload, "length");
    remove_member(upload, "role");
    let streams = remove_member(upload, "streams");
    remove_member(upload, "test_id");
    remove_member(upload, "stream_ports");
    assert(members_of(*upload) =~= whole_upload.remove_keys(
        unreported_keys().insert("stream_ports"@),
    ));
    drop_zero_buffer(upload, "send_buffer");

    remove_member(download, "family");
    remove_member(download, "kind");
    remove_member(download, "length");
    remove_member(download, "role");
    remove_member(download, "streams");
    remove_member(download, "test_id");
    assert(members_of(*download) =~= whole_download.remove_keys(unreported_keys()));
    drop_zero_buffer(download, "receive_buffer");

    let mut common = no_members();
    insert_member(&mut common, "family".to_owned(), value_or_null(family));
    insert_member(&mut common, "length".to_owned(), value_or_null(length));
    insert_member(&mut common, "streams".to_owned(), value_or_null(streams));
    assert(Json::Object(members_of(common)) == common_report(whole_upload)) by {
        assert(members_of(common)
            =~= map![
                "family"@ => member_or_null(whole_upload, "family"@),
                "length"@ => member_or_null(whole_upload, "length"@),
                "streams"@ => member_or_null(whole_upload, "streams"@),
            ]);
    }
    object(common)
}

/// Puts the ports on which the client receives into its upload configuration.
pub fn set_stream_ports(
    upload: &mut serde_json::Map<String, serde_json::Value>,
    ports: &Vec<u16>,
)
    ensures
        members_of(*final(upload)) == members_of(*old(upload)).insert(
            "stream_ports"@,
            Json::Array(port_list(ports@)),
        ),
{
    insert_member(upload, "stream_ports".to_owned(), ports_array(ports));
}

/// What is reported of a run besides its configurations.
pub open spec fn run_report(omit_seconds: int, is_ipv6: bool, reverse: bool) -> Json {
    Json::Object(
        map![
            "omit_seconds"@ => Json::Integer(omit_seconds),
            "ip_version"@ => Json::Integer(if is_ipv6 { 6 } else { 4 }),
            "reverse"@ => Json::Bool(reverse),
        ],
    )
}

/// What is reported of a run besides its configurations.
pub fn report_run(omit_seconds: usize, is_ipv6: bool, reverse: bool) -> (report: serde_json::Value)
    ensures
        json_of(report) == run_report(omit_seconds as int, is_ipv6, reverse),
{
    let ip_version: u64 = if is_ipv6 {
        6
    } else {
        4
    };
    let mut members = no_members();
    insert_member(&mut members, "omit_seconds".to_owned(), integer(omit_seconds as u64));
    insert_member(&mut members, "ip_version".to_owned(), integer(ip_version));
    insert_member(&mut members, "reverse".to_owned(), boolean(reverse));
    assert(members_of(members)
        =~= map![
            "omit_seconds"@ => Json::Integer(omit_seconds as int),
            "ip_version"@ => Json::Integer(if is_ipv6 { 6 } else { 4 }),
            "reverse"@ => Json::Bool(reverse),
        ]);
    object(members)
}

/// Whether both configurations hold the buffer sizes that decide what is
/// reported.
pub fn can_report(
    upload: &serde_json::Map<String, serde_json::Value>,
    download: &serde_json::Map<String, serde_json::Value>,
) -> (can: bool)
    ensures
        can == (has_integer(members_of(*upload), "send_buffer"@) && has_integer(
            members_of(*download),
            "receive_buffer"@,
        )),
{
    let sent: Option<i64> = match get_member(upload, "send_buffer") {
        Some(value) => as_i64(value),
        None => None,
    };
    let received: Option<i64> = match get_member(download, "receive_buffer") {
        Some(value) => as_i64(value),
        None => None,
    };
    sent.is_some() && received.is_some()
}

/// Whether a key is one that is reported of no configuration.
pub open spec fn is_unreported(key: Seq<char>) -> bool {
    key == "family"@ || key == "kind"@ || key == "length"@ || key == "role"@ || key == "streams"@
        || key == "test_id"@
}

/// Of an upload configuration everything is reported as it is but what both
/// configurations share or what concerns the control channel, the ports, and a
/// send buffer of zero.
pub proof fn law_upload_is_reported(members: Map<Seq<char>, Json>, key: Seq<char>)
    requires
        has_integer(members, "send_buffer"@),
    ensures
        upload_report(members).contains_key(key) <==> members.contains_key(key) && !is_unreported(
            key,
        ) && key != "stream_ports"@ && !(key == "send_buffer"@ && members[key] == Json::Integer(0)),
        upload_report(members).contains_key(key) ==> upload_report(members)[key] == members[key],
{
    lemma_keys_differ();
}

/// Of a download configuration everything is reported as it is but what both
/// configurations share or what concerns the control channel, and a receive
/// buffer of zero.
pub proof fn law_download_is_reported(members: Map<Seq<char>, Json>, key: Seq<char>)
    requires
        has_integer(members, "receive_buffer"@),
    ensures
        download_report(members).contains_key(key) <==> members.contains_key(key) && !is_unreported(
            key,
        ) && !(key == "receive_buffer"@ && members[key] == Json::Integer(0)),
        download_report(members).contains_key(key) ==> download_report(members)[key]
            == members[key],
{
    lemma_keys_differ();
}

/// What both configurations share is reported by the family, the length and the
/// number of streams of the upload configuration, and nothing else. What is
/// absent there is reported as null.
pub proof fn law_common_members_are_reported(upload: Map<Seq<char>, Json>, key: Seq<char>)
    ensures
        ({
            let common = common_report(upload);
            let shared = key == "family"@ || key == "length"@ || key == "streams"@;
            &&& !shared <==> lacks(common, key)
            &&& shared && upload.contains_key(key) ==> holds(common, key, upload[key])
            &&& shared && !upload.contains_key(key) ==> holds(common, key, Json::Null)
        }),
{
    lemma_keys_differ();
}

/// A run is reported by the seconds that are omitted, the version of the
/// Internet Protocol and the direction, and nothing else.
pub proof fn law_run_is_reported(omit_seconds: int, is_ipv6: bool, reverse: bool, key: Seq<char>)
    ensures
        ({
            let run = run_report(omit_seconds, is_ipv6, reverse);
            &&& holds(run, "omit_seconds"@, Json::Integer(omit_seconds))
            &&& is_ipv6 ==> holds(run, "ip_version"@, Json::Integer(6))
            &&& !is_ipv6 ==> holds(run, "ip_version"@, Json::Integer(4))
            &&& holds(run, "reverse"@, Json::Bool(reverse))
            &&& key != "omit_seconds"@ && key != "ip_version"@ && key != "reverse"@ ==> lacks(
                run,
                key,
            )
        }),
{
    reveal_strlit("omit_seconds");
    reveal_strlit("ip_version");
    reveal_strlit("reverse");
    assert("omit_seconds"@.len() == 12 && "ip_version"@.len() == 10 && "reverse"@.len() == 7);
}

/// The report gives what both configurations share and leaves in each what is
/// reported of it.
pub proof fn law_configurations_are_reported(
    upload: &mut serde_json::Map<String, serde_json::Value>,
    download: &mut serde_json::Map<String, serde_json::Value>,
    common: serde_json::Value,
    key: Seq<char>,
)
    requires
        call_ensures(report_configurations, (upload, download), common),
        has_integer(members_of(*old(upload)), "send_buffer"@),
        has_integer(members_of(*old(download)), "receive_buffer"@),
    ensures
        json_of(common) == common_report(members_of(*old(upload))),
        members_of(*final(upload)).contains_key(key) <==> members_of(*old(upload)).contains_key(key)
            && !is_unreported(key) && key != "stream_ports"@ && !(key == "send_buffer"@
            && members_of(*old(upload))[key] == Json::Integer(0)),
        members_of(*final(download)).contains_key(key) <==> members_of(*old(download)).contains_key(
            key,
        ) && !is_unreported(key) && !(key == "receive_buffer"@ && members_of(*old(download))[key]
            == Json::Integer(0)),
        members_of(*final(upload)).contains_key(key) ==> members_of(*final(upload))[key]
            == members_of(*old(upload))[key],
        members_of(*final(download)).contains_key(key) ==> members_of(*final(download))[key]
            == members_of(*old(download))[key],
{
    law_upload_is_reported(members_of(*old(upload)), key);
    law_download_is_reported(members_of(*old(download)), key);
}

/// The ports go into the upload configuration in order and change nothing else
/// there; a run is reported as it was; and configurations can be reported
/// exactly if both buffer sizes are integers.
pub proof fn law_ports_and_run_are_put_in(
    upload: &mut serde_json::Map<String, serde_json::Value>,
    ports: Vec<u16>,
    key: Seq<char>,
    omit_seconds: usize,
    is_ipv6: bool,
    reverse: bool,
    report: serde_json::Value,
    sent: serde_json::Map<String, serde_json::Value>,
    received: serde_json::Map<String, serde_json::Value>,
    can: bool,
)
    requires
        call_ensures(set_stream_ports, (upload, &ports), ()),
        call_ensures(report_run, (omit_seconds, is_ipv6, reverse), report),
        call_ensures(can_report, (&sent, &received), can),
    ensures
        holds(
            Json::Object(members_of(*final(upload))),
            "stream_ports"@,
            Json::Array(Seq::new(ports@.len(), |i: int| Json::Integer(ports@[i] as int))),
        ),
        key != "stream_ports"@ ==> (members_of(*final(upload)).contains_key(key) <==> members_of(
            *old(upload),
        ).contains_key(key)) && members_of(*final(upload))[key] == members_of(*old(upload))[key],
        json_of(report) == run_report(omit_seconds as int, is_ipv6, reverse),
        can <==> has_integer(members_of(sent), "send_buffer"@) && has_integer(
            members_of(received),
            "receive_buffer"@,
        ),
{
    assert(port_list(ports@) =~= Seq::new(ports@.len(), |i: int| Json::Integer(ports@[i] as int)));
}

/// An integer stands under a key exactly if one that a signed 64-bit number can
/// hold does.
pub proof fn law_integers_are_signed(members: Map<Seq<char>, Json>, key: Seq<char>)
    ensures
        has_integer(members, key) <==> members.contains_key(key) && (match members[key] {
            Json::Integer(number) => i64::MIN <= number <= i64::MAX,
            _ => false,
        }),
{
}

} // verus!
