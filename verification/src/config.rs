use vstd::prelude::*;

verus! {

/// An IP address held as plain numbers: four octets for version 4, eight
/// 16-bit groups for version 6.
#[derive(Clone, Copy, PartialEq, Eq, Structural, Debug)]
pub enum IpAddress {
    V4(u8, u8, u8, u8),
    V6(u16, u16, u16, u16, u16, u16, u16, u16),
}

/// A socket address: an IP address and a port.
#[derive(Clone, Copy, PartialEq, Eq, Structural, Debug)]
pub struct SocketAddress {
    pub ip: IpAddress,
    pub port: u16,
}

/// The forwarder's configuration: where to listen, where to forward, and
/// the tuning options applied to every connection. Fixed at startup and
/// copied, read-only, into every session.
#[derive(Clone, Copy, PartialEq, Eq, Structural, Debug)]
pub struct Config {
    /// The address to bind and listen on.
    pub source: SocketAddress,
    /// The address every inbound connection is forwarded to.
    pub dest: SocketAddress,
    /// Whether to disable small-packet coalescing (NODELAY) on both sides.
    pub nodelay: bool,
    /// Keepalive probe interval in seconds; zero disables keepalive.
    pub keepalive_secs: u64,
}

/// The keepalive interval a configuration asks for: disabled (`None`) when
/// the configured number of seconds is zero, else that many seconds.
pub open spec fn spec_keepalive_interval(secs: u64) -> Option<u64> {
    if secs == 0 {
        None
    } else {
        Some(secs)
    }
}

/// Turns the configured keepalive seconds into the interval to set on a
/// socket: zero means keepalive is disabled.
pub fn keepalive_interval(secs: u64) -> (r: Option<u64>)
    ensures
        r == spec_keepalive_interval(secs),
{
    if secs == 0 {
        None
    } else {
        Some(secs)
    }
}

} // verus!
