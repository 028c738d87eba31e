use vstd::prelude::*;
use vstd::string::StringExecFns;
use crate::session::SessionResult;

verus! {

/// The severity of a log line: the forwarder only ever logs at these two
/// levels.
#[derive(Clone, Copy, PartialEq, Eq, Structural, Debug)]
pub enum LogLevel {
    Info,
    Severe,
}

/// The label shown for a peer whose address could not be retrieved.
pub open spec fn spec_unknown_peer() -> Seq<char> {
    "<unknown>"@
}

/// The label a session is logged under: the peer address where it could be
/// retrieved, a fixed placeholder where it could not — never a failure.
pub fn peer_label(peer: Option<String>) -> (r: String)
    ensures
        peer matches Some(p) ==> r@ == p@,
        peer is None ==> r@ == spec_unknown_peer(),
{
    match peer {
        Some(p) => p,
        None => String::from_str("<unknown>"),
    }
}

/// The line logged when an inbound connection is accepted.
pub open spec fn spec_connected_line(peer: Seq<char>) -> Seq<char> {
    "Connected ("@ + peer + ")"@
}

/// Builds the acceptance log line for a peer label.
pub fn connected_line(peer: &str) -> (r: String)
    ensures
        r@ == spec_connected_line(peer@),
{
    let mut s = String::from_str("Connected (");
    s.append(peer);
    s.append(")");
    s
}

/// The line logged when a session ends cleanly.
pub open spec fn spec_disconnected_line(peer: Seq<char>) -> Seq<char> {
    "Disconnected ("@ + peer + ")"@
}

/// The line logged when a session ends with an error.
pub open spec fn spec_disconnected_error_line(err: Seq<char>, peer: Seq<char>) -> Seq<char> {
    "Disconnected with error: "@ + err + " ("@ + peer + ")"@
}

/// Builds the clean-disconnect log line for a peer label.
pub fn disconnected_line(peer: &str) -> (r: String)
    ensures
        r@ == spec_disconnected_line(peer@),
{
    let mut s = String::from_str("Disconnected (");
    s.append(peer);
    s.append(")");
    s
}

/// Builds the erroneous-disconnect log line for an error text and a peer
/// label.
pub fn disconnected_error_line(err: &str, peer: &str) -> (r: String)
    ensures
        r@ == spec_disconnected_error_line(err@, peer@),
{
    let mut s = String::from_str("Disconnected with error: ");
    s.append(err);
    s.append(" (");
    s.append(peer);
    s.append(")");
    s
}

/// Turns a finished session's result into its one log line: informational
/// on a clean end, severe with the error's text otherwise. Exactly one line
/// per session, whichever way it ended.
pub fn completion_log(result: &SessionResult, peer: &str) -> (r: (String, LogLevel))
    ensures
        result is Clean ==> r.0@ == spec_disconnected_line(peer@) && r.1 == LogLevel::Info,
        result matches SessionResult::Error(e) ==> r.0@ == spec_disconnected_error_line(e@, peer@)
            && r.1 == LogLevel::Severe,
{
    match result {
        SessionResult::Clean => (disconnected_line(peer), LogLevel::Info),
        SessionResult::Error(e) => (disconnected_error_line(e.as_str(), peer), LogLevel::Severe),
    }
}

/// The line logged when the listener stops cleanly.
pub open spec fn spec_shutdown_line() -> Seq<char> {
    "Shutdown"@
}

/// The line logged when the listener stops on a fatal error, the failed
/// bind included.
pub open spec fn spec_shutdown_error_line(err: Seq<char>) -> Seq<char> {
    "Shutdown with error: "@ + err
}

/// Turns the listener's end into its log line: a fatal error — the bind
/// failure is the only one — is logged severe, a clean stop informational.
pub fn shutdown_log(error: Option<String>) -> (r: (String, LogLevel))
    ensures
        error is None ==> r.0@ == spec_shutdown_line() && r.1 == LogLevel::Info,
        error matches Some(e) ==> r.0@ == spec_shutdown_error_line(e@) && r.1 == LogLevel::Severe,
{
    match error {
        None => (String::from_str("Shutdown"), LogLevel::Info),
        Some(e) => {
            let mut s = String::from_str("Shutdown with error: ");
            s.append(e.as_str());
            (s, LogLevel::Severe)
        },
    }
}

/// The process's exit code: zero on a graceful stop, nonzero when the
/// listener died of a fatal error such as a failed bind.
pub fn exit_code(fatal: bool) -> (r: u8)
    ensures
        r == 0 <==> !fatal,
{
    if fatal {
        1
    } else {
        0
    }
}

} // verus!
