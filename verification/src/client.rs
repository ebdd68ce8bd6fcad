//! The client's side of a test.

pub mod laws;
pub mod session;
pub mod state;
pub mod summary;

use vstd::prelude::*;

use crate::protocol::json::{as_i64, get, holds, json_of, Json};
use crate::protocol::results::{Progress, TestFamily, TestResults};
use crate::utils::text::{
    bounded_value, decimal, decimal_text, parse_u16, parse_usize, same_text, unsigned_value,
};

verus! {

/// How long to wait for a connection to the server, in seconds.
pub const CONNECT_TIMEOUT_SECONDS: u64 = 2;

/// How results are displayed.
#[derive(Debug, PartialEq, Eq, Structural, Clone, Copy)]
pub enum DisplayMode {
    Json,
    Megabit,
    Megabyte,
}

impl DisplayMode {
    /// The mode for a format given by name. A name that is none counts as
    /// JSON.
    pub open spec fn of_format(format: Seq<char>) -> DisplayMode {
        if format == "megabit"@ {
            DisplayMode::Megabit
        } else if format == "megabyte"@ {
            DisplayMode::Megabyte
        } else {
            DisplayMode::Json
        }
    }

    /// The mode for a format given by name.
    pub fn from_format(format: &str) -> (mode: DisplayMode)
        ensures
            mode == DisplayMode::of_format(format@),
    {
        if same_text(format, "megabit") {
            DisplayMode::Megabit
        } else if same_text(format, "megabyte") {
            DisplayMode::Megabyte
        } else {
            DisplayMode::Json
        }
    }

    /// Whether everything is displayed at the end, as JSON.
    pub fn is_json(self) -> (json: bool)
        ensures
            json == (self == DisplayMode::Json),
    {
        match self {
            DisplayMode::Json => true,
            _ => false,
        }
    }

    /// Whether rates are displayed in bits rather than in bytes.
    pub fn is_bit(self) -> (bit: bool)
        ensures
            bit == (self == DisplayMode::Megabit),
    {
        match self {
            DisplayMode::Megabit => true,
            _ => false,
        }
    }

    /// What is put out for `report`: JSON as it is, and any other report as a
    /// line.
    pub open spec fn output(self, report: Seq<char>) -> Seq<char> {
        if self == DisplayMode::Json {
            report
        } else {
            report + "\n"@
        }
    }

    /// What is put out for `report`.
    pub fn output_text(self, report: &str) -> (text: String)
        ensures
            text@ == self.output(report@),
    {
        if self.is_json() {
            report.to_owned()
        } else {
            report.to_owned().concat("\n")
        }
    }
}

/// An option of the command line that cannot be read.
#[derive(Debug)]
pub enum OptionError {
    /// The port is no number below 65536.
    Port(std::num::ParseIntError),
    /// The number of seconds to omit is no number.
    Omit(std::num::ParseIntError),
}

/// Reads the port of the server.
pub fn read_port(port: &str) -> (read: Result<u16, OptionError>)
    ensures
        match bounded_value(port@, u16::MAX as nat) {
            Some(value) => read matches Ok(n) && n as nat == value,
            None => read matches Err(OptionError::Port(_)),
        },
{
    match parse_u16(port) {
        Ok(n) => Ok(n),
        Err(reason) => Err(OptionError::Port(reason)),
    }
}

/// Reads how many seconds to omit from the start of calculations.
pub fn read_omit_seconds(omit: &str) -> (read: Result<usize, OptionError>)
    ensures
        match bounded_value(omit@, usize::MAX as nat) {
            Some(value) => read matches Ok(n) && n as nat == value,
            None => read matches Err(OptionError::Omit(_)),
        },
{
    match parse_usize(omit) {
        Ok(n) => Ok(n),
        Err(reason) => Err(OptionError::Omit(reason)),
    }
}

/// The text that names a server and its port.
pub fn destination(address: &str, port: u16) -> (text: String)
    ensures
        text@ == address@ + ":"@ + decimal(port as nat),
{
    address.to_owned().concat(":").concat(decimal_text(port).as_str())
}

/// How many streams a configuration asks for, if it asks for a number of them
/// that can be counted.
pub fn configured_streams(configuration: &serde_json::Value) -> (count: Option<usize>)
    ensures
        match json_of(*configuration).member("streams"@) {
            Some(streams) => match streams.signed() {
                Some(n) => if 0 <= n <= usize::MAX {
                    count matches Some(found) && found == n
                } else {
                    count is None
                },
                None => count is None,
            },
            None => count is None,
        },
{
    match get(configuration, "streams") {
        Some(streams) => match as_i64(streams) {
            Some(n) => if n >= 0 && n as u64 <= usize::MAX as u64 {
                Some(n as usize)
            } else {
                None
            },
            None => None,
        },
        None => None,
    }
}

/// Results for a test of `stream_count` streams.
pub fn prepare_test_results(is_udp: bool, stream_count: u8) -> (results: TestResults)
    ensures
        results.wf(),
        results@ == Progress::of_streams(
            if is_udp {
                TestFamily::Udp
            } else {
                TestFamily::Tcp
            },
            stream_count as int,
        ),
{
    let family = if is_udp {
        TestFamily::Udp
    } else {
        TestFamily::Tcp
    };
    let mut results = TestResults::new(family);
    assert(results@ =~= Progress::of_streams(family, 0));
    let mut i: u8 = 0;
    while i < stream_count
        invariant
            i <= stream_count,
            results.wf(),
            results@ == Progress::of_streams(family, i as int),
        decreases stream_count - i,
    {
        results.prepare_index(i);
        assert(results@ =~= Progress::of_streams(family, i + 1));
        i = i + 1;
    }
    results
}

/// A format is known by its name, and any name that is none counts as JSON.
/// JSON is put out as it is, and any other report with one line feed behind it.
pub proof fn law_formats_and_their_output(format: Seq<char>, mode: DisplayMode, report: Seq<char>)
    ensures
        DisplayMode::of_format("json"@) == DisplayMode::Json,
        DisplayMode::of_format(format) == DisplayMode::Megabit <==> format == "megabit"@,
        DisplayMode::of_format(format) == DisplayMode::Megabyte <==> format == "megabyte"@,
        mode.output(report).len() == report.len() + (if mode == DisplayMode::Json {
            0int
        } else {
            1int
        }),
        mode.output(report).take(report.len() as int) == report,
        mode != DisplayMode::Json ==> mode.output(report).last() == '\n',
{
    reveal_strlit("json");
    reveal_strlit("megabit");
    reveal_strlit("megabyte");
    reveal_strlit("\n");
    assert("json"@.len() == 4 && "megabit"@.len() == 7 && "megabyte"@.len() == 8);
    assert(mode.output(report).take(report.len() as int) =~= report);
}

/// What is read of the command line and of a configuration is what stands
/// there: numbers by their numerals, and the number of streams if it is one
/// that can be counted.
pub proof fn law_options_are_read_as_written(
    text: &str,
    port: Result<u16, OptionError>,
    omit: Result<usize, OptionError>,
    configuration: serde_json::Value,
    count: Option<usize>,
    number: int,
)
    requires
        call_ensures(read_port, (text,), port),
        call_ensures(read_omit_seconds, (text,), omit),
        call_ensures(configured_streams, (&configuration,), count),
    ensures
        match port {
            Ok(n) => unsigned_value(text@) == Some(n as nat),
            Err(e) => e is Port && (unsigned_value(text@) matches Some(value) ==> value > 65535),
        },
        match omit {
            Ok(n) => unsigned_value(text@) == Some(n as nat),
            Err(e) => e is Omit && (unsigned_value(text@) matches Some(value) ==> value
                > usize::MAX),
        },
        0 <= number <= usize::MAX && number <= i64::MAX ==> (holds(
            json_of(configuration),
            "streams"@,
            Json::Integer(number),
        ) <==> count == Some(number as usize)),
        count matches Some(n) ==> n <= i64::MAX,
{
}

/// A destination is the address, a colon and the port's decimal.
pub proof fn law_destination_names_both(address: &str, port: u16, text: String)
    requires
        call_ensures(destination, (address, port), text),
    ensures
        text@.take(address@.len() as int) == address@,
        text@[address@.len() as int] == ':',
        text@.skip(address@.len() as int + 1) == decimal(port as nat),
{
    reveal_strlit(":");
    assert(text@.take(address@.len() as int) =~= address@);
    assert(text@.skip(address@.len() as int + 1) =~= decimal(port as nat));
}

/// Formats are told by name, displays by what they show, and results by the
/// streams that they wait for.
pub proof fn law_displays_and_results_are_as_asked(
    format: &str,
    chosen: DisplayMode,
    mode: DisplayMode,
    json: bool,
    bit: bool,
    report: &str,
    text: String,
    is_udp: bool,
    stream_count: u8,
    results: TestResults,
    idx: u8,
)
    requires
        call_ensures(DisplayMode::from_format, (format,), chosen),
        call_ensures(DisplayMode::is_json, (mode,), json),
        call_ensures(DisplayMode::is_bit, (mode,), bit),
        call_ensures(DisplayMode::output_text, (mode, report), text),
        call_ensures(prepare_test_results, (is_udp, stream_count), results),
    ensures
        chosen == DisplayMode::of_format(format@),
        json == (mode == DisplayMode::Json),
        bit == (mode == DisplayMode::Megabit),
        text@ == mode.output(report@),
        results@.pending.contains(idx) <==> idx < stream_count,
        results@.pending_server.contains(idx) <==> idx < stream_count,
        !results@.failed.contains(idx),
        results@.family == TestFamily::Udp <==> is_udp,
{
}

/// How long the client waits for a connection.
pub proof fn law_client_waits()
    ensures
        CONNECT_TIMEOUT_SECONDS == 2,
{
}

} // verus!
