use vstd::prelude::*;
use crate::config::{Config, keepalive_interval, spec_keepalive_interval};

verus! {

/// What a session sets on one socket: the keepalive interval in seconds
/// (`None` disables keepalive) and the NODELAY flag.
#[derive(Clone, Copy, PartialEq, Eq, Debug)]
pub struct OptionPlan {
    pub keepalive: Option<u64>,
    pub nodelay: bool,
}

/// The option plan a configuration asks for, the same for the inbound and
/// the outbound socket of every session.
pub open spec fn spec_option_plan(cfg: Config) -> OptionPlan {
    OptionPlan {
        keepalive: spec_keepalive_interval(cfg.keepalive_secs),
        nodelay: cfg.nodelay,
    }
}

/// Derives the socket-option plan from the configuration: keepalive is
/// disabled exactly when the configured interval is zero, and NODELAY is
/// taken as configured.
pub fn option_plan(cfg: &Config) -> (r: OptionPlan)
    ensures
        r == spec_option_plan(*cfg),
{
    OptionPlan {
        keepalive: keepalive_interval(cfg.keepalive_secs),
        nodelay: cfg.nodelay,
    }
}

/// The error texts to log after applying an option plan: one entry for each
/// of the two settings that failed, keepalive first.
pub open spec fn spec_option_failure_logs(
    keepalive_result: Result<(), String>,
    nodelay_result: Result<(), String>,
) -> Seq<String> {
    let first = match keepalive_result {
        Ok(()) => Seq::<String>::empty(),
        Err(e) => Seq::<String>::empty().push(e),
    };
    match nodelay_result {
        Ok(()) => first,
        Err(e) => first.push(e),
    }
}

/// Settles the outcome of applying an option plan: a failure to set either
/// option is reported as a line to log and otherwise ignored — no error
/// value escapes, so the session always proceeds.
pub fn option_failure_logs(
    keepalive_result: Result<(), String>,
    nodelay_result: Result<(), String>,
) -> (logs: Vec<String>)
    ensures
        logs@ == spec_option_failure_logs(keepalive_result, nodelay_result),
{
    let mut logs: Vec<String> = Vec::new();
    match keepalive_result {
        Ok(()) => {},
        Err(e) => {
            logs.push(e);
        },
    }
    match nodelay_result {
        Ok(()) => {},
        Err(e) => {
            logs.push(e);
        },
    }
    logs
}

} // verus!
