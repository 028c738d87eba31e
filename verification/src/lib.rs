//! A TCP port forwarder's verified core.
//!
//! The forwarder listens on a source address and, for each inbound
//! connection, opens an outbound connection to a fixed destination, then
//! relays bytes in both directions until either side closes or errors.
//! This crate holds everything the forwarder decides or computes: the
//! configuration and the socket-option plan derived from it, the session
//! protocol (connect, configure, race the two copy directions, tear down),
//! the byte-level model of one copy direction, and the log lines. The
//! sockets themselves, the event loop and the logging sink live outside,
//! in the thin binary around this crate.

pub mod config;
pub mod copy;
pub mod gate;
pub mod listener;
pub mod options;
pub mod render;
pub mod session;
