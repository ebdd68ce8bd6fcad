//! Verified core of a network throughput tester.
//!
//! A client and a server agree over a control channel on a test, in which
//! streams carry data between them. This library makes the decisions on both
//! sides and reads and writes the control channel's messages; the program
//! around it owns the sockets, the threads and the clock's hands.
//!
//! - [`protocol`]: messages, their framing, and the streams and progress of a test
//! - [`client`]: the client's session, its options and its report
//! - [`server`]: the server's session, its options and its count of clients
//! - [`utils`]: text and CPU affinity

pub mod client;
pub mod protocol;
pub mod server;
pub mod utils;
