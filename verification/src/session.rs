use vstd::prelude::*;
use crate::config::{Config, SocketAddress};
use crate::options::{OptionPlan, option_plan, spec_option_plan};

verus! {

/// One of the two copy directions of a session: upstream carries bytes from
/// the inbound connection to the outbound one, downstream the reverse.
#[derive(Clone, Copy, PartialEq, Eq, Structural, Debug)]
pub enum Direction {
    Upstream,
    Downstream,
}

/// How one copy direction ended: the source half reported end of stream, or
/// an I/O error with its text.
#[derive(PartialEq, Eq, Debug)]
pub enum CopyOutcome {
    Eof,
    Failed(String),
}

/// A session's final result: a clean disconnect, or the error text of the
/// step that ended it.
#[derive(PartialEq, Eq, Debug)]
pub enum SessionResult {
    Clean,
    Error(String),
}

/// Where a session stands between the events that drive it.
#[derive(PartialEq, Eq, Debug)]
pub enum SessionState {
    /// The inbound connection is accepted and its options are being applied.
    SettingInboundOptions,
    /// The outbound connect is in flight.
    Connecting,
    /// The outbound connection is up and its options are being applied.
    SettingOutboundOptions,
    /// Both copy directions are running and racing to finish first.
    Relaying,
    /// Both connections are torn down; the result is settled.
    Closed(SessionResult),
}

/// What happened outside the session's control: options were applied (their
/// failures are logged separately and never reach the session), the outbound
/// connect succeeded or failed, or one copy direction finished.
#[derive(PartialEq, Eq, Debug)]
pub enum SessionEvent {
    InboundOptionsApplied,
    ConnectSucceeded,
    ConnectFailed(String),
    OutboundOptionsApplied,
    CopyFinished(Direction, CopyOutcome),
}

/// What the session asks its surroundings to do next.
#[derive(Clone, Copy, PartialEq, Eq, Debug)]
pub enum SessionAction {
    /// Set the plan's options on the inbound socket.
    ApplyInboundOptions(OptionPlan),
    /// Open the outbound connection to this address.
    Connect(SocketAddress),
    /// Set the plan's options on the outbound socket.
    ApplyOutboundOptions(OptionPlan),
    /// Start the two concurrent copy directions.
    StartCopies,
    /// Close both connections; the losing copy direction is abandoned.
    Teardown,
    /// Nothing: the event arrived after the session was already decided.
    Ignore,
}

impl CopyOutcome {
    /// An owned copy of this outcome, equal to it.
    pub fn duplicate(&self) -> (r: CopyOutcome)
        ensures
            r == *self,
    {
        match self {
            CopyOutcome::Eof => CopyOutcome::Eof,
            CopyOutcome::Failed(e) => CopyOutcome::Failed(e.clone()),
        }
    }
}

impl SessionEvent {
    /// An owned copy of this event, equal to it.
    pub fn duplicate(&self) -> (r: SessionEvent)
        ensures
            r == *self,
    {
        match self {
            SessionEvent::InboundOptionsApplied => SessionEvent::InboundOptionsApplied,
            SessionEvent::ConnectSucceeded => SessionEvent::ConnectSucceeded,
            SessionEvent::ConnectFailed(e) => SessionEvent::ConnectFailed(e.clone()),
            SessionEvent::OutboundOptionsApplied => SessionEvent::OutboundOptionsApplied,
            SessionEvent::CopyFinished(d, o) => SessionEvent::CopyFinished(*d, o.duplicate()),
        }
    }
}

/// The result a session settles on when its first copy direction finishes:
/// clean on end of stream, the error otherwise.
pub open spec fn spec_copy_result(out: CopyOutcome) -> SessionResult {
    match out {
        CopyOutcome::Eof => SessionResult::Clean,
        CopyOutcome::Failed(e) => SessionResult::Error(e),
    }
}

/// A session's starting point, right after its inbound connection was
/// accepted: apply the configuration's options to the inbound socket.
pub open spec fn spec_start(cfg: Config) -> (SessionState, SessionAction) {
    (
        SessionState::SettingInboundOptions,
        SessionAction::ApplyInboundOptions(spec_option_plan(cfg)),
    )
}

/// Opens a session over a freshly accepted inbound connection: the first
/// action applies the configured option plan to the inbound socket.
pub fn start(cfg: &Config) -> (r: (SessionState, SessionAction))
    ensures
        r == spec_start(*cfg),
{
    (
        SessionState::SettingInboundOptions,
        SessionAction::ApplyInboundOptions(option_plan(cfg)),
    )
}

/// One step of the session protocol. A failed connect closes the session at
/// once with that error; the first finished copy direction closes it with
/// that direction's outcome — a race, not a join. A closed session ignores
/// every further event, so the loser of the race cannot change the result.
/// Teardown is unconditional on every path into `Closed`.
pub open spec fn spec_step(cfg: Config, s: SessionState, e: SessionEvent) -> (
    SessionState,
    SessionAction,
) {
    match (s, e) {
        (SessionState::SettingInboundOptions, SessionEvent::InboundOptionsApplied) => (
            SessionState::Connecting,
            SessionAction::Connect(cfg.dest),
        ),
        (SessionState::Connecting, SessionEvent::ConnectSucceeded) => (
            SessionState::SettingOutboundOptions,
            SessionAction::ApplyOutboundOptions(spec_option_plan(cfg)),
        ),
        (SessionState::Connecting, SessionEvent::ConnectFailed(err)) => (
            SessionState::Closed(SessionResult::Error(err)),
            SessionAction::Teardown,
        ),
        (SessionState::SettingOutboundOptions, SessionEvent::OutboundOptionsApplied) => (
            SessionState::Relaying,
            SessionAction::StartCopies,
        ),
        (SessionState::Relaying, SessionEvent::CopyFinished(_d, out)) => (
            SessionState::Closed(spec_copy_result(out)),
            SessionAction::Teardown,
        ),
        (other, _) => (other, SessionAction::Ignore),
    }
}

/// Advances a session by one event, exactly as `spec_step` says.
pub fn step(cfg: &Config, s: SessionState, e: SessionEvent) -> (r: (SessionState, SessionAction))
    ensures
        r == spec_step(*cfg, s, e),
{
    match (s, e) {
        (SessionState::SettingInboundOptions, SessionEvent::InboundOptionsApplied) => (
            SessionState::Connecting,
            SessionAction::Connect(cfg.dest),
        ),
        (SessionState::Connecting, SessionEvent::ConnectSucceeded) => (
            SessionState::SettingOutboundOptions,
            SessionAction::ApplyOutboundOptions(option_plan(cfg)),
        ),
        (SessionState::Connecting, SessionEvent::ConnectFailed(err)) => (
            SessionState::Closed(SessionResult::Error(err)),
            SessionAction::Teardown,
        ),
        (SessionState::SettingOutboundOptions, SessionEvent::OutboundOptionsApplied) => (
            SessionState::Relaying,
            SessionAction::StartCopies,
        ),
        (SessionState::Relaying, SessionEvent::CopyFinished(_d, out)) => (
            SessionState::Closed(match out {
                CopyOutcome::Eof => SessionResult::Clean,
                CopyOutcome::Failed(e2) => SessionResult::Error(e2),
            }),
            SessionAction::Teardown,
        ),
        (other, _) => (other, SessionAction::Ignore),
    }
}

/// A whole run from a given state: the state after all events, and the
/// action each event triggered, in order.
pub open spec fn spec_run(cfg: Config, s: SessionState, events: Seq<SessionEvent>) -> (
    SessionState,
    Seq<SessionAction>,
)
    decreases events.len(),
{
    if events.len() == 0 {
        (s, Seq::empty())
    } else {
        let (s1, a) = spec_step(cfg, s, events[0]);
        let (sf, rest) = spec_run(cfg, s1, events.drop_first());
        (sf, Seq::empty().push(a) + rest)
    }
}

/// A whole session: start on the accepted inbound connection, then take the
/// events as they come. The first action is the inbound option plan.
pub open spec fn spec_session(cfg: Config, events: Seq<SessionEvent>) -> (
    SessionState,
    Seq<SessionAction>,
) {
    let (s0, a0) = spec_start(cfg);
    let (sf, acts) = spec_run(cfg, s0, events);
    (sf, Seq::empty().push(a0) + acts)
}

/// Running one more event at the end of a run is one more step on its final
/// state, and appends that step's action.
pub proof fn lemma_run_snoc(cfg: Config, s: SessionState, es: Seq<SessionEvent>, e: SessionEvent)
    ensures
        spec_run(cfg, s, es.push(e)).0 == spec_step(cfg, spec_run(cfg, s, es).0, e).0,
        spec_run(cfg, s, es.push(e)).1 == spec_run(cfg, s, es).1.push(
            spec_step(cfg, spec_run(cfg, s, es).0, e).1,
        ),
    decreases es.len(),
{
    reveal_with_fuel(spec_run, 3);
    if es.len() == 0 {
        assert(es.push(e)[0] == e);
        assert(es.push(e).drop_first() =~= Seq::<SessionEvent>::empty());
        assert(spec_run(cfg, s, es.push(e)).1 =~= spec_run(cfg, s, es).1.push(
            spec_step(cfg, spec_run(cfg, s, es).0, e).1,
        ));
    } else {
        let (s1, a) = spec_step(cfg, s, es[0]);
        assert(es.push(e)[0] == es[0]);
        assert(es.push(e).drop_first() =~= es.drop_first().push(e));
        lemma_run_snoc(cfg, s1, es.drop_first(), e);
        assert(spec_run(cfg, s, es.push(e)).1 =~= spec_run(cfg, s, es).1.push(
            spec_step(cfg, spec_run(cfg, s, es).0, e).1,
        ));
    }
}

/// The action carries no option plan, or it carries exactly the
/// configuration's plan.
pub open spec fn spec_plan_action_ok(cfg: Config, a: SessionAction) -> bool {
    match a {
        SessionAction::ApplyInboundOptions(p) => p == spec_option_plan(cfg),
        SessionAction::ApplyOutboundOptions(p) => p == spec_option_plan(cfg),
        _ => true,
    }
}

/// A closed session is final: whatever events arrive afterwards, the state
/// keeps the settled result and every further action is `Ignore` — the
/// losing copy direction is abandoned, never joined.
pub proof fn lemma_closed_is_final(cfg: Config, r: SessionResult, events: Seq<SessionEvent>)
    ensures
        spec_run(cfg, SessionState::Closed(r), events).0 == SessionState::Closed(r),
        spec_run(cfg, SessionState::Closed(r), events).1.len() == events.len(),
        forall|i: int|
            0 <= i < events.len() ==> spec_run(cfg, SessionState::Closed(r), events).1[i]
                == SessionAction::Ignore,
    decreases events.len(),
{
    reveal_with_fuel(spec_run, 2);
    if events.len() == 0 {
    } else {
        lemma_closed_is_final(cfg, r, events.drop_first());
        let whole = spec_run(cfg, SessionState::Closed(r), events).1;
        let rest = spec_run(cfg, SessionState::Closed(r), events.drop_first()).1;
        assert forall|i: int| 0 <= i < events.len() implies whole[i] == SessionAction::Ignore by {
            if i > 0 {
                assert(whole[i] == rest[i - 1]);
            }
        }
    }
}

/// An unreachable destination ends the session at once: the connect error
/// becomes the session's result and teardown is immediate — the inbound
/// connection is closed, no copy ever starts — and nothing that happens
/// later changes the result or acts again.
pub proof fn lemma_connect_failure_is_final(cfg: Config, err: String, later: Seq<SessionEvent>)
    ensures
        spec_step(cfg, SessionState::Connecting, SessionEvent::ConnectFailed(err)) == (
            SessionState::Closed(SessionResult::Error(err)),
            SessionAction::Teardown,
        ),
        spec_run(cfg, SessionState::Closed(SessionResult::Error(err)), later).0
            == SessionState::Closed(SessionResult::Error(err)),
        forall|i: int|
            0 <= i < later.len() ==> spec_run(
                cfg,
                SessionState::Closed(SessionResult::Error(err)),
                later,
            ).1[i] == SessionAction::Ignore,
{
    lemma_closed_is_final(cfg, SessionResult::Error(err), later);
}

/// The first copy direction to finish decides the session, whichever it is:
/// one step closes the session with that direction's outcome (clean on end
/// of stream, the error otherwise) and tears both connections down, and the
/// other direction's later completion is ignored. In particular, a client
/// that closes the inbound connection ends the whole session in one step.
pub proof fn lemma_first_completion_decides(
    cfg: Config,
    d: Direction,
    out: CopyOutcome,
    later: Seq<SessionEvent>,
)
    ensures
        spec_step(cfg, SessionState::Relaying, SessionEvent::CopyFinished(d, out)) == (
            SessionState::Closed(spec_copy_result(out)),
            SessionAction::Teardown,
        ),
        out is Eof ==> spec_copy_result(out) == SessionResult::Clean,
        spec_run(cfg, SessionState::Closed(spec_copy_result(out)), later).0
            == SessionState::Closed(spec_copy_result(out)),
        forall|i: int|
            0 <= i < later.len() ==> spec_run(
                cfg,
                SessionState::Closed(spec_copy_result(out)),
                later,
            ).1[i] == SessionAction::Ignore,
{
    lemma_closed_is_final(cfg, spec_copy_result(out), later);
}

/// Every option-applying action of a run carries exactly the
/// configuration's plan.
pub proof fn lemma_options_uniform(cfg: Config, s: SessionState, events: Seq<SessionEvent>)
    ensures
        forall|i: int|
            0 <= i < spec_run(cfg, s, events).1.len() ==> spec_plan_action_ok(
                cfg,
                #[trigger] spec_run(cfg, s, events).1[i],
            ),
    decreases events.len(),
{
    reveal_with_fuel(spec_run, 2);
    if events.len() == 0 {
    } else {
        let (s1, a) = spec_step(cfg, s, events[0]);
        lemma_options_uniform(cfg, s1, events.drop_first());
        let whole = spec_run(cfg, s, events).1;
        let rest = spec_run(cfg, s1, events.drop_first()).1;
        assert forall|i: int| 0 <= i < whole.len() implies spec_plan_action_ok(
            cfg,
            #[trigger] whole[i],
        ) by {
            if i > 0 {
                assert(whole[i] == rest[i - 1]);
            }
        }
    }
}

/// How many times a run of actions tears the connections down.
pub open spec fn spec_teardown_count(acts: Seq<SessionAction>) -> nat
    decreases acts.len(),
{
    if acts.len() == 0 {
        0
    } else {
        (if acts[0] is Teardown {
            1nat
        } else {
            0nat
        }) + spec_teardown_count(acts.drop_first())
    }
}

/// No run asks for more teardowns than it has actions.
pub proof fn lemma_teardown_count_bounded(acts: Seq<SessionAction>)
    ensures
        spec_teardown_count(acts) <= acts.len(),
    decreases acts.len(),
{
    if acts.len() > 0 {
        lemma_teardown_count_bounded(acts.drop_first());
    }
}

/// Teardowns in a concatenation add up.
pub proof fn lemma_teardown_count_add(a: Seq<SessionAction>, b: Seq<SessionAction>)
    ensures
        spec_teardown_count(a + b) == spec_teardown_count(a) + spec_teardown_count(b),
    decreases a.len(),
{
    if a.len() == 0 {
        assert(a + b =~= b);
    } else {
        assert((a + b)[0] == a[0]);
        assert((a + b).drop_first() =~= a.drop_first() + b);
        lemma_teardown_count_add(a.drop_first(), b);
    }
}

/// Actions that all ignore their event tear nothing down.
pub proof fn lemma_ignores_have_no_teardown(acts: Seq<SessionAction>)
    requires
        forall|i: int| 0 <= i < acts.len() ==> acts[i] == SessionAction::Ignore,
    ensures
        spec_teardown_count(acts) == 0,
    decreases acts.len(),
{
    if acts.len() > 0 {
        assert forall|i: int|
            0 <= i < acts.drop_first().len() implies acts.drop_first()[i]
            == SessionAction::Ignore by {
            assert(acts.drop_first()[i] == acts[i + 1]);
        }
        lemma_ignores_have_no_teardown(acts.drop_first());
    }
}

/// One connection attempt against an unreachable destination produces
/// exactly one erroneous completion and nothing more: the session ends with
/// the connect error as its result, its connections are torn down exactly
/// once, and the copies never start — whatever else arrives afterwards.
pub proof fn lemma_unreachable_destination(cfg: Config, err: String, later: Seq<SessionEvent>)
    ensures
        ({
            let events = seq![
                SessionEvent::InboundOptionsApplied,
                SessionEvent::ConnectFailed(err),
            ] + later;
            &&& spec_session(cfg, events).0 == SessionState::Closed(SessionResult::Error(err))
            &&& spec_teardown_count(spec_session(cfg, events).1) == 1
            &&& forall|i: int|
                0 <= i < spec_session(cfg, events).1.len() ==> !(#[trigger] spec_session(
                    cfg,
                    events,
                ).1[i] is StartCopies)
        }),
{
    reveal_with_fuel(spec_run, 3);
    reveal_with_fuel(spec_teardown_count, 2);
    let events = seq![SessionEvent::InboundOptionsApplied, SessionEvent::ConnectFailed(err)]
        + later;
    let closed = SessionState::Closed(SessionResult::Error(err));
    assert(events[0] == SessionEvent::InboundOptionsApplied);
    let after_first = events.drop_first();
    assert(after_first =~= seq![SessionEvent::ConnectFailed(err)] + later);
    assert(after_first[0] == SessionEvent::ConnectFailed(err));
    assert(after_first.drop_first() =~= later);
    lemma_closed_is_final(cfg, SessionResult::Error(err), later);
    let rest = spec_run(cfg, closed, later).1;
    lemma_ignores_have_no_teardown(rest);

    let connect = Seq::empty().push(SessionAction::Connect(cfg.dest));
    let teardown = Seq::empty().push(SessionAction::Teardown);
    let run_acts = spec_run(cfg, spec_start(cfg).0, events).1;
    assert(run_acts =~= connect + (teardown + rest));
    lemma_teardown_count_add(teardown, rest);
    lemma_teardown_count_add(connect, teardown + rest);

    let opening = Seq::empty().push(spec_start(cfg).1);
    let whole = spec_session(cfg, events).1;
    assert(whole =~= opening + run_acts);
    lemma_teardown_count_add(opening, run_acts);

    assert forall|i: int| 0 <= i < whole.len() implies !(#[trigger] whole[i] is StartCopies) by {
        if i == 0 {
            assert(whole[0] == spec_start(cfg).1);
        } else if i == 1 {
            assert(whole[1] == SessionAction::Connect(cfg.dest));
        } else if i == 2 {
            assert(whole[2] == SessionAction::Teardown);
        } else {
            assert(whole[i] == rest[i - 3]);
        }
    }
}

/// Counts the teardowns among the actions from position `i` on.
fn teardown_count_from(acts: &Vec<SessionAction>, i: usize) -> (n: usize)
    requires
        i <= acts.len(),
    ensures
        n as nat == spec_teardown_count(acts@.skip(i as int)),
    decreases acts.len() - i,
{
    if i == acts.len() {
        proof {
            assert(acts@.skip(i as int) =~= Seq::<SessionAction>::empty());
        }
        0
    } else {
        let rest = teardown_count_from(acts, i + 1);
        proof {
            assert(acts@.skip(i as int).drop_first() =~= acts@.skip(i as int + 1));
            assert(acts@.skip(i as int)[0] == acts@[i as int]);
            lemma_teardown_count_bounded(acts@.skip(i as int + 1));
        }
        match acts[i] {
            SessionAction::Teardown => rest + 1,
            _ => rest,
        }
    }
}

/// Counts how often a run of actions tears the connections down; by
/// `lemma_one_teardown` this is one for every session that closed and zero
/// for one still open.
pub fn teardown_count(acts: &Vec<SessionAction>) -> (n: usize)
    ensures
        n as nat == spec_teardown_count(acts@),
{
    proof {
        assert(acts@.skip(0) =~= acts@);
    }
    teardown_count_from(acts, 0)
}

/// Cleanup is unconditional and happens once: a run tears the connections
/// down exactly once when it reaches `Closed` — whichever way, a failed
/// connect or a finished copy direction — and never again afterwards, and
/// never without closing. No session leaks its sockets and none is torn
/// down twice.
pub proof fn lemma_one_teardown(cfg: Config, s: SessionState, events: Seq<SessionEvent>)
    ensures
        spec_teardown_count(spec_run(cfg, s, events).1) == (if !(s is Closed) && spec_run(
            cfg,
            s,
            events,
        ).0 is Closed {
            1nat
        } else {
            0nat
        }),
        s is Closed ==> spec_run(cfg, s, events).0 == s,
    decreases events.len(),
{
    reveal_with_fuel(spec_run, 2);
    reveal_with_fuel(spec_teardown_count, 2);
    if events.len() == 0 {
    } else {
        let (s1, a) = spec_step(cfg, s, events[0]);
        lemma_one_teardown(cfg, s1, events.drop_first());
        let whole = spec_run(cfg, s, events).1;
        let rest = spec_run(cfg, s1, events.drop_first()).1;
        assert(whole.drop_first() =~= rest);
        assert(whole[0] == a);
    }
}

/// Option application is uniform and per-process: in every session run under
/// one configuration, each socket — inbound and outbound alike — gets the
/// same plan, with keepalive disabled exactly when the configured interval
/// is zero and NODELAY exactly as configured. With `nodelay` set and a zero
/// keepalive interval, every session therefore disables keepalive and
/// enables NODELAY on both of its sockets.
pub proof fn lemma_session_options_uniform(cfg: Config, events: Seq<SessionEvent>)
    ensures
        forall|i: int|
            0 <= i < spec_session(cfg, events).1.len() ==> spec_plan_action_ok(
                cfg,
                #[trigger] spec_session(cfg, events).1[i],
            ),
        spec_option_plan(cfg).nodelay == cfg.nodelay,
        cfg.keepalive_secs == 0 <==> spec_option_plan(cfg).keepalive is None,
        cfg.keepalive_secs != 0 ==> spec_option_plan(cfg).keepalive == Some(cfg.keepalive_secs),
{
    lemma_options_uniform(cfg, spec_start(cfg).0, events);
    let whole = spec_session(cfg, events).1;
    let run = spec_run(cfg, spec_start(cfg).0, events).1;
    assert forall|i: int| 0 <= i < whole.len() implies spec_plan_action_ok(
        cfg,
        #[trigger] whole[i],
    ) by {
        if i > 0 {
            assert(whole[i] == run[i - 1]);
        }
    }
}

/// Runs a whole session over a recorded sequence of events: the final state
/// and every action taken, the initial inbound option plan first.
pub fn run_session(cfg: &Config, events: &Vec<SessionEvent>) -> (r: (
    SessionState,
    Vec<SessionAction>,
))
    ensures
        r.0 == spec_session(*cfg, events@).0,
        r.1@ == spec_session(*cfg, events@).1,
{
    let (st, a0) = start(cfg);
    let mut state = st;
    let mut actions: Vec<SessionAction> = Vec::new();
    actions.push(a0);
    let mut i: usize = 0;
    proof {
        assert(events@.take(0) =~= Seq::<SessionEvent>::empty());
    }
    while i < events.len()
        invariant
            i <= events.len(),
            state == spec_run(*cfg, spec_start(*cfg).0, events@.take(i as int)).0,
            actions@ == Seq::empty().push(spec_start(*cfg).1) + spec_run(
                *cfg,
                spec_start(*cfg).0,
                events@.take(i as int),
            ).1,
        decreases events.len() - i,
    {
        let ev = events[i].duplicate();
        proof {
            lemma_run_snoc(*cfg, spec_start(*cfg).0, events@.take(i as int), events@[i as int]);
            assert(events@.take(i as int).push(events@[i as int]) =~= events@.take(i + 1 as int));
        }
        let (s2, a) = step(cfg, state, ev);
        state = s2;
        actions.push(a);
        i = i + 1;
    }
    proof {
        assert(events@.take(events@.len() as int) =~= events@);
    }
    (state, actions)
}

} // verus!
