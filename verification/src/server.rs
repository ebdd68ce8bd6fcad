//! The server's side of a test.

pub mod laws;
pub mod session;
pub mod state;

use vstd::prelude::*;

use crate::utils::text::{bounded_value, parse_u16, unsigned_value};

verus! {

/// How long to block on polling for a connection, in milliseconds. The server
/// waits as long between looks at whether its clients have finished.
pub const POLL_TIMEOUT_MILLIS: u64 = 500;

/// How a server is set up.
#[derive(Debug, PartialEq, Eq, Structural, Clone, Copy)]
pub struct ServerOptions {
    /// How many clients are served at once; zero is no limit.
    pub client_limit: u16,
    pub port: u16,
}

/// An option of the command line that cannot be read.
#[derive(Debug)]
pub enum OptionError {
    /// The limit is no number below 65536.
    ClientLimit(std::num::ParseIntError),
    /// The port is no number below 65536.
    Port(std::num::ParseIntError),
}

impl ServerOptions {
    /// Reads the options, the limit first.
    pub fn read(client_limit: &str, port: &str) -> (read: Result<ServerOptions, OptionError>)
        ensures
            match (
                bounded_value(client_limit@, u16::MAX as nat),
                bounded_value(port@, u16::MAX as nat),
            ) {
                (Some(limit), Some(number)) => read matches Ok(options) && options.client_limit
                    == limit && options.port == number,
                (Some(_), None) => read matches Err(OptionError::Port(_)),
                (None, _) => read matches Err(OptionError::ClientLimit(_)),
            },
    {
        match parse_u16(client_limit) {
            Ok(client_limit) => match parse_u16(port) {
                Ok(port) => Ok(ServerOptions { client_limit, port }),
                Err(reason) => Err(OptionError::Port(reason)),
            },
            Err(reason) => Err(OptionError::ClientLimit(reason)),
        }
    }
}

/// Options are read exactly if both are numerals of numbers below 65536, and
/// are those numbers. It is the limit that is told if both are not.
pub proof fn law_server_options_are_numerals(
    client_limit: &str,
    port: &str,
    read: Result<ServerOptions, OptionError>,
)
    requires
        call_ensures(ServerOptions::read, (client_limit, port), read),
    ensures
        match read {
            Ok(options) => unsigned_value(client_limit@) == Some(options.client_limit as nat)
                && unsigned_value(port@) == Some(options.port as nat),
            Err(OptionError::ClientLimit(_)) => unsigned_value(client_limit@) matches Some(value)
                ==> value > 65535,
            Err(OptionError::Port(_)) => (unsigned_value(client_limit@) matches Some(value) && value
                <= 65535) && (unsigned_value(port@) matches Some(value) ==> value > 65535),
        },
{
}

/// How long the server waits.
pub proof fn law_server_waits()
    ensures
        POLL_TIMEOUT_MILLIS == 500,
{
}

} // verus!
