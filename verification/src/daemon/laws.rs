//! What holds of every run of the daemon's decisions.
//!
//! A run starts with the first step of a request and feeds the outcomes of
//! the actions back, one by one. The laws below speak of the actions that a
//! run hands out and of the state it leaves.

use crate::daemon::{
    access_needed, after_teardown, connect_step, done, enable_action, find_server, killswitch_step,
    lifecycle_of, request_step, resume_step, shutdown_step, teardown_step, Access, ActionView,
    DaemonErrorKind, Lifecycle, OutcomeView, Pending, Shutdown, StateView, StepView,
    TEARDOWN_ATTEMPTS,
};
use crate::api::types::LogicalServerView;
use crate::client::openvpn::Protocol;
use crate::protocol::RequestView;
use vstd::prelude::*;

verus! {

/// What a run has done so far.
pub struct Trace {
    /// The state it left.
    pub state: StateView,
    /// The actions it handed out, in order.
    pub actions: Seq<ActionView>,
    /// The step it stopped at: the end of the request, or an action whose
    /// outcome has not been reported.
    pub last: StepView,
}

/// The run that starts at `step` in `state` and is told `outcomes`, one for
/// each action, for as long as there are both.
pub open spec fn run(state: StateView, step: StepView, outcomes: Seq<OutcomeView>) -> Trace
    decreases outcomes.len(),
{
    match step {
        StepView::Perform(action, pending) => {
            if outcomes.len() == 0 {
                Trace { state, actions: seq![action], last: step }
            } else {
                let next = resume_step(state, pending, outcomes[0]);
                let rest = run(next.0, next.1, outcomes.skip(1));
                Trace { state: rest.state, actions: seq![action] + rest.actions, last: rest.last }
            }
        },
        _ => Trace { state, actions: Seq::<ActionView>::empty(), last: step },
    }
}

/// How many of the actions start a tunnel.
pub open spec fn launches(actions: Seq<ActionView>) -> nat
    decreases actions.len(),
{
    if actions.len() == 0 {
        0
    } else {
        launches(actions.drop_last()) + if actions.last() is Launch {
            1nat
        } else {
            0nat
        }
    }
}

/// How many of the actions ask a process to end.
pub open spec fn terminations(actions: Seq<ActionView>) -> nat
    decreases actions.len(),
{
    if actions.len() == 0 {
        0
    } else {
        terminations(actions.drop_last()) + if actions.last() is Terminate {
            1nat
        } else {
            0nat
        }
    }
}

/// How many of the actions touch a process: start, end or kill one.
pub open spec fn process_actions(actions: Seq<ActionView>) -> nat
    decreases actions.len(),
{
    if actions.len() == 0 {
        0
    } else {
        process_actions(actions.drop_last()) + if actions.last() is Launch || actions.last()
            is Terminate || actions.last() is Kill {
            1nat
        } else {
            0nat
        }
    }
}

/// The record that a search finds carries the identifier, and no later
/// record does.
pub proof fn lemma_find_server(servers: Seq<LogicalServerView>, id: Seq<char>)
    ensures
        match find_server(servers, id) {
            Some(i) => 0 <= i < servers.len() && servers[i].id == id && forall|j: int|
                i < j < servers.len() ==> (#[trigger] servers[j]).id != id,
            None => forall|j: int| 0 <= j < servers.len() ==> (#[trigger] servers[j]).id != id,
        },
    decreases servers.len(),
{
    if servers.len() > 0 && servers.last().id != id {
        lemma_find_server(servers.drop_last(), id);
        let init = servers.drop_last();
        assert forall|j: int| 0 <= j < init.len() implies init[j] == servers[j] by {}
        match find_server(init, id) {
            Some(i) => {
                assert forall|j: int| i < j < servers.len() implies (#[trigger] servers[j]).id
                    != id by {
                    if j < init.len() {
                        assert(init[j] == servers[j]);
                    }
                }
            },
            None => {
                assert forall|j: int| 0 <= j < servers.len() implies (#[trigger] servers[j]).id
                    != id by {
                    if j < init.len() {
                        assert(init[j] == servers[j]);
                    }
                }
            },
        }
    }
}

/// No outcome makes the daemon forget that a backup exists, and the
/// killswitch is never in force without one. The directory never changes.
pub proof fn lemma_resume_invariant(state: StateView, pending: Pending, outcome: OutcomeView)
    ensures
        state.wf() ==> resume_step(state, pending, outcome).0.wf(),
        state.killswitch.backup_exists ==> resume_step(
            state,
            pending,
            outcome,
        ).0.killswitch.backup_exists,
        resume_step(state, pending, outcome).0.servers == state.servers,
{
}

/// A failed action leaves the state as it was, except at shutdown.
pub proof fn lemma_failure_changes_nothing(state: StateView, pending: Pending, detail: Seq<char>)
    requires
        !(pending is Lowering) && !(pending is Quelling) && !(pending is Forcing) && !(pending
            is Leaving) && !(pending is Forgetting),
    ensures
        resume_step(state, pending, OutcomeView::Failed(detail)).0 == state,
        resume_step(state, pending, OutcomeView::Failed(detail)).1 is Finished,
        resume_step(state, pending, OutcomeView::Failed(detail)).1->Finished_0 is Err,
{
}

/// A disconnect without a tunnel succeeds at once: it hands out no action
/// and leaves the state alone.
pub proof fn lemma_disconnect_idle(state: StateView, outcomes: Seq<OutcomeView>)
    requires
        state.active_server is None,
    ensures
        request_step(state, RequestView::Disconnect) == done(),
        run(state, request_step(state, RequestView::Disconnect), outcomes) == (Trace {
            state,
            actions: Seq::<ActionView>::empty(),
            last: done(),
        }),
        process_actions(run(state, request_step(state, RequestView::Disconnect), outcomes).actions)
            == 0,
{
}

/// Enabling the killswitch without an active connection fails at once: no
/// action is handed out and the state, the killswitch flags with it, stays
/// as it was.
pub proof fn lemma_killswitch_needs_connection(state: StateView, outcomes: Seq<OutcomeView>)
    requires
        state.active_server is None,
    ensures
        ({
            let trace = run(state, request_step(state, RequestView::Killswitch(true)), outcomes);
            &&& trace.state == state
            &&& trace.actions.len() == 0
            &&& trace.last matches StepView::Finished(Err(e))
            &&& e.kind == DaemonErrorKind::NoActiveConnection
        }),
{
}

/// A second enabling of the killswitch, with no disabling in between, is
/// told that the backup exists: the saved rules are not written again.
pub proof fn lemma_enable_again_keeps_backup(state: StateView, outcome: OutcomeView)
    requires
        state.active_server is Some,
        !(outcome is Failed),
    ensures
        ({
            let first = killswitch_step(state, true);
            let after = resume_step(state, Pending::Enabling, outcome).0;
            let second = killswitch_step(after, true);
            &&& first matches StepView::Perform(_, Pending::Enabling)
            &&& after.killswitch.enabled
            &&& after.killswitch.backup_exists
            &&& second matches StepView::Perform(
                ActionView::EnableKillswitch { backup_known, .. },
                _,
            )
            &&& backup_known
        }),
{
}

/// Counting the actions of a run that starts with `first`.
pub proof fn lemma_count_first(first: ActionView, rest: Seq<ActionView>)
    ensures
        launches(seq![first] + rest) == launches(rest) + if first is Launch {
            1nat
        } else {
            0nat
        },
        terminations(seq![first] + rest) == terminations(rest) + if first is Terminate {
            1nat
        } else {
            0nat
        },
    decreases rest.len(),
{
    let all = seq![first] + rest;
    if rest.len() == 0 {
        assert(all.drop_last() =~= Seq::<ActionView>::empty());
        assert(all.last() == first);
        assert(launches(all.drop_last()) == 0);
        assert(terminations(all.drop_last()) == 0);
    } else {
        lemma_count_first(first, rest.drop_last());
        assert(all.drop_last() =~= seq![first] + rest.drop_last());
        assert(all.last() == rest.last());
    }
}

/// Whether the tunnel to this server over this protocol is up.
pub open spec fn connected_to(state: StateView, id: Seq<char>, protocol: Protocol) -> bool {
    state.active_server matches Some(active) && active.server.id == id && active.protocol
        == protocol
}

/// A connect that went well leaves the tunnel to that server up, and has
/// started at most one tunnel: exactly one, unless that tunnel was up
/// already.
pub proof fn lemma_connect_launches_once(
    state: StateView,
    id: Seq<char>,
    protocol: Protocol,
    outcomes: Seq<OutcomeView>,
)
    requires
        state.wf(),
        find_server(state.servers, id) is Some,
        run(state, connect_step(state, id, protocol), outcomes).last == done(),
    ensures
        ({
            let trace = run(state, connect_step(state, id, protocol), outcomes);
            &&& connected_to(trace.state, id, protocol)
            &&& trace.state.servers == state.servers
            &&& launches(trace.actions) == if connected_to(state, id, protocol) {
                0nat
            } else {
                1nat
            }
        }),
{
    reveal_with_fuel(run, 5);
    lemma_find_server(state.servers, id);
    let server = find_server(state.servers, id)->0;
    let first = connect_step(state, id, protocol);
    let launch = ActionView::Launch { server, protocol };
    let empty = Seq::<ActionView>::empty();
    lemma_count_first(launch, empty);
    assert(seq![launch] + empty =~= seq![launch]);
    if connected_to(state, id, protocol) {
    } else if state.active_server is None {
        assert(outcomes.len() >= 1);
    } else {
        let active = state.active_server->0;
        let end = ActionView::Terminate { pid: active.pid };
        lemma_count_first(end, seq![launch]);
        if active.protocol != protocol && state.killswitch.enabled {
            let apply = enable_action(state, active, protocol);
            lemma_count_first(apply, seq![end] + seq![launch]);
            assert(outcomes.len() >= 3);
            assert(outcomes.skip(1).skip(1) =~= outcomes.skip(2));
            assert(outcomes.skip(1)[0] == outcomes[1]);
            assert(outcomes.skip(2)[0] == outcomes[2]);
            let trace = run(state, first, outcomes);
            assert(trace.actions =~= seq![apply] + (seq![end] + seq![launch]));
        } else {
            assert(outcomes.len() >= 2);
            assert(outcomes.skip(1)[0] == outcomes[1]);
            let trace = run(state, first, outcomes);
            assert(trace.actions =~= seq![end] + seq![launch]);
        }
    }
}

/// A connect to the server and protocol whose tunnel is up does nothing.
pub proof fn lemma_connect_again_is_idle(
    state: StateView,
    id: Seq<char>,
    protocol: Protocol,
    outcomes: Seq<OutcomeView>,
)
    requires
        find_server(state.servers, id) is Some,
        connected_to(state, id, protocol),
    ensures
        run(state, connect_step(state, id, protocol), outcomes) == (Trace {
            state,
            actions: Seq::<ActionView>::empty(),
            last: done(),
        }),
{
}

/// Two connects in a row with the same server and protocol start one
/// tunnel between them, provided that the server is known, that the first
/// connect went well and that this tunnel was not up before. The second
/// connect hands out no action and leaves the state alone.
pub proof fn lemma_connect_twice_launches_once(
    state: StateView,
    id: Seq<char>,
    protocol: Protocol,
    first: Seq<OutcomeView>,
    second: Seq<OutcomeView>,
)
    requires
        state.wf(),
        find_server(state.servers, id) is Some,
        !connected_to(state, id, protocol),
        run(state, connect_step(state, id, protocol), first).last == done(),
    ensures
        ({
            let one = run(state, connect_step(state, id, protocol), first);
            let two = run(one.state, connect_step(one.state, id, protocol), second);
            &&& two.actions.len() == 0
            &&& two.last == done()
            &&& two.state == one.state
            &&& launches(one.actions + two.actions) == 1
        }),
{
    lemma_connect_launches_once(state, id, protocol, first);
    let one = run(state, connect_step(state, id, protocol), first);
    lemma_connect_again_is_idle(one.state, id, protocol, second);
    assert(one.actions + Seq::<ActionView>::empty() =~= one.actions);
}

/// A connect to another server, or over another protocol, while a tunnel
/// is up asks the earlier process to end at most once, and exactly once if
/// the connect goes well; it never asks any other process. If the
/// killswitch is in force and the protocol changes, the first action applies
/// the rules for the new protocol, and the process is asked to end only
/// after that action has succeeded. Otherwise the first action asks the
/// process to end.
pub proof fn lemma_reconnect_terminates_once(
    state: StateView,
    id: Seq<char>,
    protocol: Protocol,
    outcomes: Seq<OutcomeView>,
)
    requires
        state.wf(),
        state.active_server is Some,
        find_server(state.servers, id) is Some,
        !connected_to(state, id, protocol),
    ensures
        ({
            let active = state.active_server->0;
            let trace = run(state, connect_step(state, id, protocol), outcomes);
            let end = ActionView::Terminate { pid: active.pid };
            let reapply = state.killswitch.enabled && active.protocol != protocol;
            &&& 1 <= trace.actions.len() <= 3
            &&& terminations(trace.actions) <= 1
            &&& trace.last == done() ==> terminations(trace.actions) == 1
            &&& forall|i: int|
                0 <= i < trace.actions.len() && #[trigger] trace.actions[i] is Terminate
                    ==> trace.actions[i] == end
            &&& !reapply ==> trace.actions[0] == end
            &&& reapply ==> {
                &&& trace.actions[0] == enable_action(state, active, protocol)
                &&& forall|i: int|
                    0 <= i < trace.actions.len() && #[trigger] trace.actions[i] is Terminate ==> i
                        == 1 && outcomes.len() >= 1 && !(outcomes[0] is Failed)
            }
        }),
{
    reveal_with_fuel(run, 5);
    lemma_find_server(state.servers, id);
    let server = find_server(state.servers, id)->0;
    let active = state.active_server->0;
    let first = connect_step(state, id, protocol);
    let trace = run(state, first, outcomes);
    let launch = ActionView::Launch { server, protocol };
    let end = ActionView::Terminate { pid: active.pid };
    let apply = enable_action(state, active, protocol);
    let empty = Seq::<ActionView>::empty();
    lemma_count_first(launch, empty);
    lemma_count_first(end, empty);
    lemma_count_first(apply, empty);
    lemma_count_first(end, seq![launch]);
    lemma_count_first(apply, seq![end]);
    lemma_count_first(apply, seq![end] + seq![launch]);
    assert(seq![launch] + empty =~= seq![launch]);
    assert(seq![end] + empty =~= seq![end]);
    assert(seq![apply] + empty =~= seq![apply]);
    if outcomes.len() >= 2 {
        assert(outcomes.skip(1)[0] == outcomes[1]);
        assert(outcomes.skip(1).skip(1) =~= outcomes.skip(2));
    }
    if outcomes.len() >= 3 {
        assert(outcomes.skip(2)[0] == outcomes[2]);
    }
    if active.protocol != protocol && state.killswitch.enabled {
        assert(trace.actions =~= seq![apply] || trace.actions =~= seq![apply] + seq![end]
            || trace.actions =~= seq![apply] + (seq![end] + seq![launch]));
    } else {
        assert(trace.actions =~= seq![end] || trace.actions =~= seq![end] + seq![launch]);
    }
}

/// What follows a teardown that went well needs at most one more action
/// before the daemon leaves, and asks no process to end.
pub proof fn lemma_after_teardown_exits(
    state: StateView,
    cause: Shutdown,
    outcomes: Seq<OutcomeView>,
)
    requires
        outcomes.len() >= 1,
    ensures
        ({
            let trace = run(state, after_teardown(state, cause), outcomes);
            &&& trace.last is Exit
            &&& trace.actions.len() <= 1
            &&& terminations(trace.actions) == 0
        }),
{
    reveal_with_fuel(run, 3);
    let trace = run(state, after_teardown(state, cause), outcomes);
    if trace.actions.len() == 1 {
        lemma_count_first(trace.actions[0], Seq::<ActionView>::empty());
        assert(trace.actions =~= seq![trace.actions[0]] + Seq::<ActionView>::empty());
    }
}

/// The teardown at shutdown always comes to an end: from its `attempt`-th
/// attempt on, the process is asked to end at most once per attempt that is
/// left, and then the daemon leaves, whatever the outcomes were.
pub proof fn lemma_teardown_exits(
    state: StateView,
    attempt: u8,
    cause: Shutdown,
    outcomes: Seq<OutcomeView>,
)
    requires
        1 <= attempt <= TEARDOWN_ATTEMPTS,
        outcomes.len() >= 2 * (TEARDOWN_ATTEMPTS - attempt) + 4,
    ensures
        ({
            let trace = run(state, teardown_step(state, attempt, cause), outcomes);
            &&& trace.last is Exit
            &&& terminations(trace.actions) <= TEARDOWN_ATTEMPTS - attempt + 1
            &&& trace.actions.len() <= 2 * (TEARDOWN_ATTEMPTS - attempt) + 4
        }),
    decreases TEARDOWN_ATTEMPTS - attempt,
{
    let first = teardown_step(state, attempt, cause);
    let trace = run(state, first, outcomes);
    match state.active_server {
        None => {
            lemma_after_teardown_exits(state, cause, outcomes);
        },
        Some(active) => {
            let end = ActionView::Terminate { pid: active.pid };
            let o1 = outcomes.skip(1);
            let r1 = resume_step(state, Pending::Quelling { attempt, cause }, outcomes[0]);
            let t1 = run(r1.0, r1.1, o1);
            assert(trace.actions == seq![end] + t1.actions);
            assert(trace.last == t1.last);
            lemma_count_first(end, t1.actions);
            let o2 = o1.skip(1);
            assert(o1[0] == outcomes[1]);
            if !(outcomes[0] is Failed) {
                let forget = ActionView::ForgetPid;
                let r2 = resume_step(r1.0, Pending::Leaving { cause }, o1[0]);
                let t2 = run(r2.0, r2.1, o2);
                assert(t1.actions == seq![forget] + t2.actions);
                assert(t1.last == t2.last);
                lemma_count_first(forget, t2.actions);
                lemma_after_teardown_exits(r1.0, cause, o2);
            } else {
                let kill = ActionView::Kill { pid: active.pid };
                let r2 = resume_step(r1.0, Pending::Forcing { attempt, cause }, o1[0]);
                let t2 = run(r2.0, r2.1, o2);
                assert(t1.actions == seq![kill] + t2.actions);
                assert(t1.last == t2.last);
                lemma_count_first(kill, t2.actions);
                let o3 = o2.skip(1);
                assert(o2[0] == outcomes[2]);
                if !(o1[0] is Failed) {
                    let forget = ActionView::ForgetPid;
                    let r3 = resume_step(r2.0, Pending::Leaving { cause }, o2[0]);
                    let t3 = run(r3.0, r3.1, o3);
                    assert(t2.actions == seq![forget] + t3.actions);
                    assert(t2.last == t3.last);
                    lemma_count_first(forget, t3.actions);
                    lemma_after_teardown_exits(r2.0, cause, o3);
                } else if attempt < TEARDOWN_ATTEMPTS {
                    assert(r2.0 == state);
                    assert(r2.1 == teardown_step(state, (attempt + 1) as u8, cause));
                    lemma_teardown_exits(state, (attempt + 1) as u8, cause, o2);
                } else {
                    assert(t2.actions =~= Seq::<ActionView>::empty());
                    assert(terminations(t2.actions) == 0);
                }
            }
        },
    }
}

/// A shutdown always comes to an end, whatever the outcomes are: the
/// tunnel process is asked to end at most three times, and after at most
/// eight actions the daemon leaves. After a signal, with the killswitch in
/// force, the first action takes the killswitch out of force.
pub proof fn lemma_shutdown_exits(state: StateView, cause: Shutdown, outcomes: Seq<OutcomeView>)
    requires
        outcomes.len() >= 9,
    ensures
        ({
            let trace = run(state, shutdown_step(state, cause), outcomes);
            &&& trace.last is Exit
            &&& terminations(trace.actions) <= TEARDOWN_ATTEMPTS
            &&& trace.actions.len() <= 9
            &&& cause == Shutdown::Signal && state.killswitch.enabled ==> trace.actions[0]
                == ActionView::DisableKillswitch
        }),
{
    let first = shutdown_step(state, cause);
    let trace = run(state, first, outcomes);
    if cause == Shutdown::Signal && state.killswitch.enabled {
        let lower = ActionView::DisableKillswitch;
        let next = resume_step(state, Pending::Lowering { cause }, outcomes[0]);
        let rest = run(next.0, next.1, outcomes.skip(1));
        assert(trace.actions == seq![lower] + rest.actions);
        assert(trace.last == rest.last);
        lemma_count_first(lower, rest.actions);
        lemma_teardown_exits(next.0, 1, cause, outcomes.skip(1));
    } else {
        lemma_teardown_exits(state, 1, cause, outcomes);
    }
}

/// The pending action of a step, if it has one.
pub open spec fn pending_of(step: StepView) -> Option<Pending> {
    match step {
        StepView::Perform(_, pending) => Some(pending),
        _ => None,
    }
}

/// The life of the tunnel goes round in one direction: a tunnel comes up
/// only out of a start that succeeded, and it goes away only out of an end
/// of its process that succeeded. Between requests the tunnel is idle or
/// connected.
pub proof fn lemma_lifecycle(state: StateView, pending: Pending, outcome: OutcomeView)
    ensures
        ({
            let before = lifecycle_of(state, Some(pending));
            let next = resume_step(state, pending, outcome);
            let after = lifecycle_of(next.0, pending_of(next.1));
            &&& state.active_server is None && next.0.active_server is Some ==> before
                == Lifecycle::Connecting && outcome is Started
            &&& state.active_server is Some && next.0.active_server is None ==> before
                == Lifecycle::Disconnecting && !(outcome is Failed)
            &&& next.0.active_server != state.active_server ==> before == Lifecycle::Connecting
                || before == Lifecycle::Disconnecting
            &&& after == Lifecycle::Connecting ==> before == Lifecycle::Disconnecting || before
                == Lifecycle::Connected || before == Lifecycle::Idle
            &&& pending_of(next.1) is None ==> after == Lifecycle::Idle || after
                == Lifecycle::Connected
        }),
{
}

/// A request never changes the state by itself: its first step only reads
/// it. Where the request starts with an action the tunnel is, from then on,
/// where that action puts it.
pub proof fn lemma_first_step(state: StateView, request: RequestView)
    ensures
        ({
            let step = request_step(state, request);
            let phase = lifecycle_of(state, pending_of(step));
            &&& request is Status ==> phase == lifecycle_of(state, None)
            &&& request is Killswitch ==> phase == lifecycle_of(state, None)
            &&& request is Disconnect ==> phase == if state.active_server is Some {
                Lifecycle::Disconnecting
            } else {
                Lifecycle::Idle
            }
            &&& phase == Lifecycle::Connecting ==> request is Connect && state.active_server
                is None
        }),
{
}

/// A request that needs read access leaves the state as it found it,
/// whatever the outcomes are, and hands out nothing but its answer.
pub proof fn lemma_read_access_changes_nothing(
    state: StateView,
    request: RequestView,
    outcomes: Seq<OutcomeView>,
)
    requires
        access_needed(request) == Access::Read,
    ensures
        ({
            let trace = run(state, request_step(state, request), outcomes);
            &&& trace.state == state
            &&& trace.actions.len() == 1
            &&& trace.actions[0] is Reply
        }),
{
    reveal_with_fuel(run, 3);
}

} // verus!
