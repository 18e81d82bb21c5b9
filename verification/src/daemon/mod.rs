//! The daemon's decisions.
//!
//! The daemon owns at most one tunnel and a killswitch. Everything it does
//! to the outside world (signalling a process, starting the tunnel, changing
//! firewall rules, answering a client) is an [`Action`] that the caller
//! performs; the caller then reports the [`Outcome`] and gets the next step.
//! The functions here decide which action comes next and how the state
//! changes, and nothing else.

pub mod laws;

use crate::api::types::{EntryIp, LogicalServer, LogicalServerView};
use crate::api::{least, LogicalServers, SortOrder};
use crate::cache::{cache_dir, get_path, join_path, joined};
use crate::config::{Configuration, Select};
use crate::client::openvpn::Protocol;
use crate::client::Pid;
use crate::protocol::{
    decode_request, DecodeErrorKind, Request, RequestView, Response, ResponseView, ServerStatus,
    ServerStatusView, SocketProtocol,
};
use crate::text::same_text;
use vstd::prelude::*;

verus! {

/// The one tunnel that is up.
#[derive(Debug)]
pub struct ActiveServer {
    pub pid: Pid,
    /// The directory record as it was when the tunnel came up.
    pub server: LogicalServer,
    pub protocol: Protocol,
}

pub struct ActiveServerView {
    pub pid: u32,
    pub server: LogicalServerView,
    pub protocol: Protocol,
}

impl View for ActiveServer {
    type V = ActiveServerView;

    open spec fn view(&self) -> ActiveServerView {
        ActiveServerView { pid: self.pid@, server: self.server@, protocol: self.protocol }
    }
}

/// What the daemon knows of the killswitch.
#[derive(Debug, Clone, Copy, PartialEq, Eq, Structural)]
pub struct KillswitchState {
    /// The killswitch rules are in force.
    pub enabled: bool,
    /// A saved copy of the rules that were in force before the killswitch
    /// is known to exist.
    pub backup_exists: bool,
}

/// Everything the daemon keeps between requests.
#[derive(Debug)]
pub struct State {
    /// The directory. Where two records share an identifier the later one
    /// counts.
    pub servers: Vec<LogicalServer>,
    pub active_server: Option<ActiveServer>,
    pub killswitch: KillswitchState,
}

pub struct StateView {
    pub servers: Seq<LogicalServerView>,
    pub active_server: Option<ActiveServerView>,
    pub killswitch: KillswitchState,
}

/// The views of a list of directory records.
pub open spec fn server_views(servers: Seq<LogicalServer>) -> Seq<LogicalServerView> {
    Seq::new(servers.len(), |i: int| servers[i]@)
}

impl View for State {
    type V = StateView;

    open spec fn view(&self) -> StateView {
        StateView {
            servers: server_views(self.servers@),
            active_server: match self.active_server {
                Some(active) => Some(active@),
                None => None,
            },
            killswitch: self.killswitch,
        }
    }
}

impl StateView {
    /// The directory can be indexed by the machine, and the killswitch is
    /// only ever in force with a backup in place.
    pub open spec fn wf(self) -> bool {
        &&& self.servers.len() <= usize::MAX
        &&& self.killswitch.enabled ==> self.killswitch.backup_exists
    }
}

/// Why the daemon shuts down.
#[derive(Debug, Clone, Copy, PartialEq, Eq, Structural)]
pub enum Shutdown {
    /// An interrupt or termination signal arrived.
    Signal,
    /// The daemon was asked to stop.
    Stop,
}

/// Something the caller has to do on behalf of the daemon.
#[derive(Debug)]
pub enum Action {
    /// Answer the client with this response.
    Reply(Response),
    /// Put the killswitch rules for `protocol` in force. `entry_ips` are the
    /// entry addresses of the active server. With `backup_known` a saved
    /// copy of the earlier rules is known to exist and must be left alone;
    /// without it the caller looks for one and saves one only if none is
    /// there.
    EnableKillswitch { protocol: Protocol, entry_ips: Vec<EntryIp>, backup_known: bool },
    /// Take the killswitch rules out of force.
    DisableKillswitch,
    /// Ask the process to end and wait until it has.
    Terminate { pid: Pid },
    /// End the process by force and wait until it has ended.
    Kill { pid: Pid },
    /// Start the tunnel to the directory record at index `server`.
    Launch { server: usize, protocol: Protocol },
    /// Remove the record of the tunnel's process identifier.
    ForgetPid,
}

pub enum ActionView {
    Reply(ResponseView),
    EnableKillswitch { protocol: Protocol, entry_ips: Seq<EntryIp>, backup_known: bool },
    DisableKillswitch,
    Terminate { pid: u32 },
    Kill { pid: u32 },
    Launch { server: int, protocol: Protocol },
    ForgetPid,
}

impl View for Action {
    type V = ActionView;

    open spec fn view(&self) -> ActionView {
        match self {
            Action::Reply(response) => ActionView::Reply(response@),
            Action::EnableKillswitch { protocol, entry_ips, backup_known } => {
                ActionView::EnableKillswitch {
                    protocol: *protocol,
                    entry_ips: entry_ips@,
                    backup_known: *backup_known,
                }
            },
            Action::DisableKillswitch => ActionView::DisableKillswitch,
            Action::Terminate { pid } => ActionView::Terminate { pid: pid@ },
            Action::Kill { pid } => ActionView::Kill { pid: pid@ },
            Action::Launch { server, protocol } => ActionView::Launch {
                server: *server as int,
                protocol: *protocol,
            },
            Action::ForgetPid => ActionView::ForgetPid,
        }
    }
}

/// How an action ended.
#[derive(Debug)]
pub enum Outcome {
    Succeeded,
    /// The tunnel is up; this is its process.
    Started(Pid),
    /// The action failed; the text says why.
    Failed(String),
}

pub enum OutcomeView {
    Succeeded,
    Started(u32),
    Failed(Seq<char>),
}

impl View for Outcome {
    type V = OutcomeView;

    open spec fn view(&self) -> OutcomeView {
        match self {
            Outcome::Succeeded => OutcomeView::Succeeded,
            Outcome::Started(pid) => OutcomeView::Started(pid@),
            Outcome::Failed(detail) => OutcomeView::Failed(detail@),
        }
    }
}

impl OutcomeView {
    /// What a failure said; empty for a success.
    pub open spec fn detail(self) -> Seq<char> {
        match self {
            OutcomeView::Failed(detail) => detail,
            _ => Seq::<char>::empty(),
        }
    }
}

/// The kinds of failure of a request.
#[derive(Debug, Clone, Copy, PartialEq, Eq, Structural)]
pub enum DaemonErrorKind {
    /// The message was not understood.
    Decode(DecodeErrorKind),
    /// The killswitch cannot be enabled without an active connection.
    NoActiveConnection,
    /// The firewall rules could not be saved, applied or restored.
    Firewall,
    /// A tracked process could not be signalled.
    ProcessControl,
    /// The tunnel could not be started.
    Configuration,
    /// The answer could not be written.
    Io,
}

/// A request that failed.
#[derive(Debug)]
pub struct DaemonError {
    pub kind: DaemonErrorKind,
    /// For an undecoded message the message itself, else what the failed
    /// action reported.
    pub detail: String,
}

pub struct DaemonErrorView {
    pub kind: DaemonErrorKind,
    pub detail: Seq<char>,
}

impl View for DaemonError {
    type V = DaemonErrorView;

    open spec fn view(&self) -> DaemonErrorView {
        DaemonErrorView { kind: self.kind, detail: self.detail@ }
    }
}

/// What the daemon was waiting for when it handed out an action.
#[derive(Debug, Clone, Copy, PartialEq, Eq, Structural)]
pub enum Pending {
    /// A status answer is being written.
    Replying,
    /// Disconnect: the tunnel process is being terminated.
    Disconnecting,
    /// Disconnect: the record of the process identifier is being removed.
    Forgetting,
    /// Connect: the killswitch rules are being applied for the new protocol.
    Reapplying { server: usize, protocol: Protocol },
    /// Connect: the earlier tunnel process is being terminated.
    Replacing { server: usize, protocol: Protocol },
    /// Connect: the new tunnel is being started.
    Launching { server: usize, protocol: Protocol },
    /// Killswitch: the rules are being put in force.
    Enabling,
    /// Killswitch: the rules are being taken out of force.
    Disabling,
    /// Shutdown: the killswitch rules are being taken out of force.
    Lowering { cause: Shutdown },
    /// Shutdown: the tunnel process is being terminated, in this attempt.
    Quelling { attempt: u8, cause: Shutdown },
    /// Shutdown: the tunnel process is being ended by force, in this attempt.
    Forcing { attempt: u8, cause: Shutdown },
    /// Shutdown: the record of the process identifier is being removed.
    Leaving { cause: Shutdown },
}

/// The daemon's answer to a request or to an outcome.
#[derive(Debug)]
pub enum Step {
    /// Perform the action, then report how it ended together with `pending`.
    Perform(Action, Pending),
    /// The request is done.
    Finished(Result<(), DaemonError>),
    /// Leave the process with a success status.
    Exit,
}

pub enum StepView {
    Perform(ActionView, Pending),
    Finished(Result<(), DaemonErrorView>),
    Exit,
}

impl View for Step {
    type V = StepView;

    open spec fn view(&self) -> StepView {
        match self {
            Step::Perform(action, pending) => StepView::Perform(action@, *pending),
            Step::Finished(Ok(())) => StepView::Finished(Ok(())),
            Step::Finished(Err(e)) => StepView::Finished(Err(e@)),
            Step::Exit => StepView::Exit,
        }
    }
}

/// How a request has to hold the state while it is handled.
#[derive(Debug, Clone, Copy, PartialEq, Eq, Structural)]
pub enum Access {
    /// Shared with other readers: the request only reads the state.
    Read,
    /// Exclusive: the request may change the state, and no other request
    /// and no shutdown runs beside it.
    Write,
}

/// The access that a request needs: a status request reads, every other
/// request writes. A shutdown writes as well.
pub open spec fn access_needed(request: RequestView) -> Access {
    if request is Status {
        Access::Read
    } else {
        Access::Write
    }
}

/// Where the tunnel stands in its life.
#[derive(Debug, Clone, Copy, PartialEq, Eq, Structural)]
pub enum Lifecycle {
    /// No tunnel is up and none is being started.
    Idle,
    /// A tunnel is being started.
    Connecting,
    /// A tunnel is up.
    Connected,
    /// The tunnel process is being ended.
    Disconnecting,
}

/// Where the tunnel stands while the daemon waits for the outcome of an
/// action, or between requests where it waits for none.
pub open spec fn lifecycle_of(state: StateView, pending: Option<Pending>) -> Lifecycle {
    match pending {
        Some(Pending::Launching { .. }) => Lifecycle::Connecting,
        Some(Pending::Disconnecting) => Lifecycle::Disconnecting,
        Some(Pending::Replacing { .. }) => Lifecycle::Disconnecting,
        Some(Pending::Quelling { .. }) => Lifecycle::Disconnecting,
        Some(Pending::Forcing { .. }) => Lifecycle::Disconnecting,
        _ => if state.active_server is Some {
            Lifecycle::Connected
        } else {
            Lifecycle::Idle
        },
    }
}

/// How often the termination of the tunnel is attempted at shutdown.
pub const TEARDOWN_ATTEMPTS: u8 = 3;

// ---------------------------------------------------------------------------
// The decisions, as mathematics
// ---------------------------------------------------------------------------

/// Index of the directory record with this identifier: the last one, where
/// several share it.
pub open spec fn find_server(servers: Seq<LogicalServerView>, id: Seq<char>) -> Option<int>
    decreases servers.len(),
{
    if servers.len() == 0 {
        None
    } else if servers.last().id == id {
        Some(servers.len() - 1)
    } else {
        find_server(servers.drop_last(), id)
    }
}

/// The failure of a request because an action failed.
pub open spec fn failed(kind: DaemonErrorKind, outcome: OutcomeView) -> StepView {
    StepView::Finished(Err(DaemonErrorView { kind, detail: outcome.detail() }))
}

/// The request is done and went well.
pub open spec fn done() -> StepView {
    StepView::Finished(Ok(()))
}

/// The status that a client is told.
pub open spec fn status_of(state: StateView) -> ResponseView {
    match state.active_server {
        Some(active) => ResponseView::Status(
            ServerStatusView::Connected {
                name: active.server.name,
                pid: active.pid,
                protocol: active.protocol,
            },
        ),
        None => ResponseView::Status(ServerStatusView::Disconnected),
    }
}

/// The action that puts the killswitch in force for `protocol`, given the
/// active connection.
pub open spec fn enable_action(
    state: StateView,
    active: ActiveServerView,
    protocol: Protocol,
) -> ActionView {
    ActionView::EnableKillswitch {
        protocol,
        entry_ips: active.server.entry_ips,
        backup_known: state.killswitch.backup_exists,
    }
}

/// The first step of a connect request.
pub open spec fn connect_step(state: StateView, id: Seq<char>, protocol: Protocol) -> StepView {
    match find_server(state.servers, id) {
        None => done(),
        Some(server) => match state.active_server {
            None => StepView::Perform(
                ActionView::Launch { server, protocol },
                Pending::Launching { server: server as usize, protocol },
            ),
            Some(active) => {
                if active.server.id == id && active.protocol == protocol {
                    done()
                } else if active.protocol != protocol && state.killswitch.enabled {
                    StepView::Perform(
                        enable_action(state, active, protocol),
                        Pending::Reapplying { server: server as usize, protocol },
                    )
                } else {
                    StepView::Perform(
                        ActionView::Terminate { pid: active.pid },
                        Pending::Replacing { server: server as usize, protocol },
                    )
                }
            },
        },
    }
}

/// The first step of a disconnect request.
pub open spec fn disconnect_step(state: StateView) -> StepView {
    match state.active_server {
        None => done(),
        Some(active) => StepView::Perform(
            ActionView::Terminate { pid: active.pid },
            Pending::Disconnecting,
        ),
    }
}

/// The first step of a killswitch request.
///
/// Enabling needs an active connection. Disabling is attempted whatever the
/// daemon knows of the killswitch, also where it never enabled it: the rules
/// may be in force from an earlier run, and where nothing can be restored the
/// action fails and the request with it.
pub open spec fn killswitch_step(state: StateView, enable: bool) -> StepView {
    if enable {
        match state.active_server {
            None => StepView::Finished(
                Err(
                    DaemonErrorView {
                        kind: DaemonErrorKind::NoActiveConnection,
                        detail: "cannot enable killswitch without an active connection"@,
                    },
                ),
            ),
            Some(active) => StepView::Perform(
                enable_action(state, active, active.protocol),
                Pending::Enabling,
            ),
        }
    } else {
        StepView::Perform(ActionView::DisableKillswitch, Pending::Disabling)
    }
}

/// The first step of a request.
pub open spec fn request_step(state: StateView, request: RequestView) -> StepView {
    match request {
        RequestView::Status => StepView::Perform(
            ActionView::Reply(status_of(state)),
            Pending::Replying,
        ),
        RequestView::Disconnect => disconnect_step(state),
        RequestView::Connect(id, protocol) => connect_step(state, id, protocol),
        RequestView::Killswitch(enable) => killswitch_step(state, enable),
    }
}

/// The first step for a message that arrived on the control socket.
pub open spec fn message_step(state: StateView, message: Seq<char>) -> StepView {
    match decode_request(message) {
        Ok(request) => request_step(state, request),
        Err(kind) => StepView::Finished(
            Err(DaemonErrorView { kind: DaemonErrorKind::Decode(kind), detail: message }),
        ),
    }
}

/// One attempt to end the tunnel at shutdown, or what follows when there is
/// no tunnel.
pub open spec fn teardown_step(state: StateView, attempt: u8, cause: Shutdown) -> StepView {
    match state.active_server {
        None => after_teardown(state, cause),
        Some(active) => StepView::Perform(
            ActionView::Terminate { pid: active.pid },
            Pending::Quelling { attempt, cause },
        ),
    }
}

/// What follows a teardown that went well.
pub open spec fn after_teardown(state: StateView, cause: Shutdown) -> StepView {
    if cause == Shutdown::Stop && state.killswitch.enabled {
        StepView::Perform(ActionView::DisableKillswitch, Pending::Lowering { cause })
    } else {
        StepView::Exit
    }
}

/// The first step of a shutdown.
pub open spec fn shutdown_step(state: StateView, cause: Shutdown) -> StepView {
    if cause == Shutdown::Signal && state.killswitch.enabled {
        StepView::Perform(ActionView::DisableKillswitch, Pending::Lowering { cause })
    } else {
        teardown_step(state, 1, cause)
    }
}

/// The state with no active connection.
pub open spec fn cleared(state: StateView) -> StateView {
    StateView { active_server: None, ..state }
}

/// The state with the killswitch flag set to `enabled`. Enabling also
/// records that a backup exists.
pub open spec fn switched(state: StateView, enabled: bool) -> StateView {
    StateView {
        killswitch: KillswitchState {
            enabled,
            backup_exists: state.killswitch.backup_exists || enabled,
        },
        ..state
    }
}

/// The state and the next step after an action ended.
pub open spec fn resume_step(state: StateView, pending: Pending, outcome: OutcomeView) -> (
    StateView,
    StepView,
) {
    let ok = !(outcome is Failed);
    match pending {
        Pending::Replying => if ok {
            (state, done())
        } else {
            (state, failed(DaemonErrorKind::Io, outcome))
        },
        Pending::Disconnecting => if ok {
            (cleared(state), StepView::Perform(ActionView::ForgetPid, Pending::Forgetting))
        } else {
            (state, failed(DaemonErrorKind::ProcessControl, outcome))
        },
        Pending::Forgetting => (state, done()),
        Pending::Reapplying { server, protocol } => if !ok {
            (state, failed(DaemonErrorKind::Firewall, outcome))
        } else {
            match state.active_server {
                Some(active) => (
                    switched(state, true),
                    StepView::Perform(
                        ActionView::Terminate { pid: active.pid },
                        Pending::Replacing { server, protocol },
                    ),
                ),
                None => (
                    switched(state, true),
                    StepView::Perform(
                        ActionView::Launch { server: server as int, protocol },
                        Pending::Launching { server, protocol },
                    ),
                ),
            }
        },
        Pending::Replacing { server, protocol } => if ok {
            (
                state,
                StepView::Perform(
                    ActionView::Launch { server: server as int, protocol },
                    Pending::Launching { server, protocol },
                ),
            )
        } else {
            (state, failed(DaemonErrorKind::ProcessControl, outcome))
        },
        Pending::Launching { server, protocol } => match outcome {
            OutcomeView::Started(pid) => if server < state.servers.len() {
                (
                    StateView {
                        active_server: Some(
                            ActiveServerView { pid, server: state.servers[server as int], protocol },
                        ),
                        ..state
                    },
                    done(),
                )
            } else {
                (
                    state,
                    StepView::Finished(
                        Err(
                            DaemonErrorView {
                                kind: DaemonErrorKind::Configuration,
                                detail: "no such server in the directory"@,
                            },
                        ),
                    ),
                )
            },
            OutcomeView::Succeeded => (
                state,
                StepView::Finished(
                    Err(
                        DaemonErrorView {
                            kind: DaemonErrorKind::Configuration,
                            detail: "the tunnel reported no process"@,
                        },
                    ),
                ),
            ),
            OutcomeView::Failed(_) => (state, failed(DaemonErrorKind::Configuration, outcome)),
        },
        Pending::Enabling => if ok {
            (switched(state, true), done())
        } else {
            (state, failed(DaemonErrorKind::Firewall, outcome))
        },
        Pending::Disabling => if ok {
            (switched(state, false), done())
        } else {
            (state, failed(DaemonErrorKind::Firewall, outcome))
        },
        Pending::Lowering { cause } => {
            let next = if ok {
                switched(state, false)
            } else {
                state
            };
            match cause {
                Shutdown::Signal => (next, teardown_step(next, 1, cause)),
                Shutdown::Stop => (next, StepView::Exit),
            }
        },
        Pending::Quelling { attempt, cause } => match state.active_server {
            None => (state, StepView::Exit),
            Some(active) => if ok {
                (
                    cleared(state),
                    StepView::Perform(ActionView::ForgetPid, Pending::Leaving { cause }),
                )
            } else {
                (
                    state,
                    StepView::Perform(
                        ActionView::Kill { pid: active.pid },
                        Pending::Forcing { attempt, cause },
                    ),
                )
            },
        },
        Pending::Forcing { attempt, cause } => match state.active_server {
            None => (state, StepView::Exit),
            Some(active) => if ok {
                (
                    cleared(state),
                    StepView::Perform(ActionView::ForgetPid, Pending::Leaving { cause }),
                )
            } else if attempt < TEARDOWN_ATTEMPTS {
                (
                    state,
                    StepView::Perform(
                        ActionView::Terminate { pid: active.pid },
                        Pending::Quelling { attempt: (attempt + 1) as u8, cause },
                    ),
                )
            } else {
                (state, StepView::Exit)
            },
        },
        Pending::Leaving { cause } => (state, after_teardown(state, cause)),
    }
}

// ---------------------------------------------------------------------------
// The decisions, as code
// ---------------------------------------------------------------------------

impl State {
    /// The state of a daemon that has just started: no tunnel, no killswitch.
    pub fn new(servers: Vec<LogicalServer>) -> (state: State)
        ensures
            state@ == (StateView {
                servers: server_views(servers@),
                active_server: None,
                killswitch: KillswitchState { enabled: false, backup_exists: false },
            }),
            state@.wf(),
    {
        let known: usize = servers.len();
        assert(server_views(servers@).len() == known);
        State {
            servers,
            active_server: None,
            killswitch: KillswitchState { enabled: false, backup_exists: false },
        }
    }

    /// Index of the directory record with this identifier.
    pub fn lookup(&self, id: &str) -> (found: Option<usize>)
        ensures
            match found {
                Some(i) => i < self.servers.len() && find_server(self@.servers, id@) == Some(
                    i as int,
                ),
                None => find_server(self@.servers, id@) is None,
            },
    {
        let ghost all = self@.servers;
        let mut i: usize = self.servers.len();
        assert(all.take(i as int) =~= all);
        while i > 0
            invariant
                i <= self.servers.len(),
                all == self@.servers,
                find_server(all, id@) == find_server(all.take(i as int), id@),
            decreases i,
        {
            let ghost head = all.take(i as int);
            assert(head.last() == self.servers@[i - 1]@);
            assert(head.drop_last() =~= all.take(i - 1));
            if same_text(self.servers[i - 1].id.as_str(), id) {
                return Some(i - 1);
            }
            i -= 1;
        }
        None
    }

    /// Where the tunnel stands while the daemon waits for the outcome of the
    /// action that it handed out with `pending`, or between requests.
    pub fn lifecycle(&self, pending: Option<Pending>) -> (phase: Lifecycle)
        ensures
            phase == lifecycle_of(self@, pending),
    {
        match pending {
            Some(Pending::Launching { .. }) => Lifecycle::Connecting,
            Some(Pending::Disconnecting) => Lifecycle::Disconnecting,
            Some(Pending::Replacing { .. }) => Lifecycle::Disconnecting,
            Some(Pending::Quelling { .. }) => Lifecycle::Disconnecting,
            Some(Pending::Forcing { .. }) => Lifecycle::Disconnecting,
            _ => {
                if self.active_server.is_some() {
                    Lifecycle::Connected
                } else {
                    Lifecycle::Idle
                }
            },
        }
    }

    /// The status that a client is told.
    pub fn status(&self) -> (response: Response)
        ensures
            response@ == status_of(self@),
    {
        match &self.active_server {
            Some(active) => Response::Status(
                ServerStatus::Connected {
                    name: active.server.name.clone(),
                    pid: active.pid,
                    protocol: active.protocol,
                },
            ),
            None => Response::Status(ServerStatus::Disconnected),
        }
    }

    fn enable_killswitch(&self, active: &ActiveServer, protocol: Protocol) -> (action: Action)
        ensures
            action@ == enable_action(self@, active@, protocol),
    {
        Action::EnableKillswitch {
            protocol,
            entry_ips: active.server.entry_ips(),
            backup_known: self.killswitch.backup_exists,
        }
    }

    fn switch(&mut self, enabled: bool)
        ensures
            final(self)@ == switched(old(self)@, enabled),
    {
        self.killswitch = KillswitchState {
            enabled,
            backup_exists: self.killswitch.backup_exists || enabled,
        };
    }

    fn clear(&mut self)
        ensures
            final(self)@ == cleared(old(self)@),
    {
        self.active_server = None;
    }
}

fn fail(kind: DaemonErrorKind, outcome: Outcome) -> (step: Step)
    ensures
        step@ == failed(kind, outcome@),
{
    let detail = match outcome {
        Outcome::Failed(detail) => detail,
        _ => String::new(),
    };
    Step::Finished(Err(DaemonError { kind, detail }))
}

fn refuse(kind: DaemonErrorKind, detail: &str) -> (step: Step)
    ensures
        step@ == StepView::Finished(Err(DaemonErrorView { kind, detail: detail@ })),
{
    Step::Finished(Err(DaemonError { kind, detail: detail.to_owned() }))
}

/// Answers a status request: the current status is to be written back.
pub fn handle_status_request(state: &State) -> (step: Step)
    ensures
        step@ == request_step(state@, RequestView::Status),
{
    Step::Perform(Action::Reply(state.status()), Pending::Replying)
}

/// Begins a disconnect. Without a tunnel there is nothing to do.
pub fn handle_disconnect_request(state: &State) -> (step: Step)
    ensures
        step@ == disconnect_step(state@),
{
    match &state.active_server {
        Some(active) => Step::Perform(Action::Terminate { pid: active.pid }, Pending::Disconnecting),
        None => Step::Finished(Ok(())),
    }
}

/// Begins a connect.
///
/// An unknown server is ignored. A connect to the server and protocol that
/// are already active does nothing. Otherwise an earlier tunnel is ended
/// first; if the killswitch is in force and the protocol changes, its rules
/// are applied for the new protocol before that.
pub fn handle_connect_request(server_id: &str, protocol: &Protocol, state: &State) -> (step: Step)
    ensures
        step@ == connect_step(state@, server_id@, *protocol),
{
    match state.lookup(server_id) {
        None => Step::Finished(Ok(())),
        Some(server) => match &state.active_server {
            None => Step::Perform(
                Action::Launch { server, protocol: *protocol },
                Pending::Launching { server, protocol: *protocol },
            ),
            Some(active) => {
                let same_server = same_text(server_id, active.server.id.as_str());
                let same_protocol = *protocol == active.protocol;
                if same_server && same_protocol {
                    Step::Finished(Ok(()))
                } else if !same_protocol && state.killswitch.enabled {
                    Step::Perform(
                        state.enable_killswitch(active, *protocol),
                        Pending::Reapplying { server, protocol: *protocol },
                    )
                } else {
                    Step::Perform(
                        Action::Terminate { pid: active.pid },
                        Pending::Replacing { server, protocol: *protocol },
                    )
                }
            },
        },
    }
}

/// Begins a change of the killswitch. Enabling needs an active connection.
pub fn handle_killswitch_request(state: &State, enable: &bool) -> (step: Step)
    ensures
        step@ == killswitch_step(state@, *enable),
{
    if *enable {
        match &state.active_server {
            None => refuse(
                DaemonErrorKind::NoActiveConnection,
                "cannot enable killswitch without an active connection",
            ),
            Some(active) => Step::Perform(
                state.enable_killswitch(active, active.protocol),
                Pending::Enabling,
            ),
        }
    } else {
        Step::Perform(Action::DisableKillswitch, Pending::Disabling)
    }
}

/// The access to the state that the handling of a request needs.
pub fn access_of(req: &Request) -> (access: Access)
    ensures
        access == access_needed(req@),
{
    match req {
        Request::Status => Access::Read,
        _ => Access::Write,
    }
}

/// Begins the handling of a decoded request.
pub fn handle_socket_request(req: &Request, state: &State) -> (step: Step)
    ensures
        step@ == request_step(state@, req@),
{
    match req {
        Request::Status => handle_status_request(state),
        Request::Disconnect => handle_disconnect_request(state),
        Request::Connect(server_id, protocol) => handle_connect_request(
            server_id.as_str(),
            protocol,
            state,
        ),
        Request::Killswitch(enable) => handle_killswitch_request(state, enable),
    }
}

/// Begins the handling of a message as it arrived on the control socket. A
/// message that does not decode fails at once, with the message as detail.
pub fn handle_message(message: &str, state: &State) -> (step: Step)
    ensures
        step@ == message_step(state@, message@),
{
    match Request::deserialize(message) {
        Ok(req) => handle_socket_request(&req, state),
        Err(e) => Step::Finished(
            Err(DaemonError { kind: DaemonErrorKind::Decode(e.kind), detail: e.message }),
        ),
    }
}

/// One attempt to end the tunnel at shutdown.
pub fn cleanup_vpn_process(state: &State, attempt: u8, cause: Shutdown) -> (step: Step)
    ensures
        step@ == teardown_step(state@, attempt, cause),
{
    match &state.active_server {
        Some(active) => Step::Perform(
            Action::Terminate { pid: active.pid },
            Pending::Quelling { attempt, cause },
        ),
        None => finish_teardown(state, cause),
    }
}

fn finish_teardown(state: &State, cause: Shutdown) -> (step: Step)
    ensures
        step@ == after_teardown(state@, cause),
{
    if cause == Shutdown::Stop && state.killswitch.enabled {
        Step::Perform(Action::DisableKillswitch, Pending::Lowering { cause })
    } else {
        Step::Exit
    }
}

fn begin_shutdown(state: &State, cause: Shutdown) -> (step: Step)
    ensures
        step@ == shutdown_step(state@, cause),
{
    if cause == Shutdown::Signal && state.killswitch.enabled {
        Step::Perform(Action::DisableKillswitch, Pending::Lowering { cause })
    } else {
        cleanup_vpn_process(state, 1, cause)
    }
}

/// Begins the shutdown after a request to stop: the tunnel is ended first,
/// then the killswitch is taken out of force.
pub fn handle_stop_request(state: &State) -> (step: Step)
    ensures
        step@ == shutdown_step(state@, Shutdown::Stop),
{
    begin_shutdown(state, Shutdown::Stop)
}

/// Begins the shutdown after an interrupt or termination signal: the
/// killswitch is taken out of force first, then the tunnel is ended.
pub fn handle_signal(state: &State) -> (step: Step)
    ensures
        step@ == shutdown_step(state@, Shutdown::Signal),
{
    begin_shutdown(state, Shutdown::Signal)
}

/// Takes the outcome of an answer that was handed out to a request with
/// read access, and says what comes next. The state is not touched. For
/// any other pending action there is no result: it needs [`resume`].
pub fn resume_reading(state: &State, pending: Pending, outcome: Outcome) -> (step: Option<Step>)
    ensures
        match step {
            Some(step) => pending == Pending::Replying && resume_step(state@, pending, outcome@)
                == (state@, step@),
            None => pending != Pending::Replying,
        },
{
    match pending {
        Pending::Replying => {
            match outcome {
                Outcome::Failed(detail) => Some(fail(DaemonErrorKind::Io, Outcome::Failed(detail))),
                _ => Some(Step::Finished(Ok(()))),
            }
        },
        _ => None,
    }
}

/// Takes the outcome of the action that was handed out with `pending`,
/// changes the state accordingly and says what comes next.
pub fn resume(state: &mut State, pending: Pending, outcome: Outcome) -> (step: Step)
    ensures
        (final(state)@, step@) == resume_step(old(state)@, pending, outcome@),
        old(state)@.wf() ==> final(state)@.wf(),
{
    let ok = match &outcome {
        Outcome::Failed(_) => false,
        _ => true,
    };
    match pending {
        Pending::Replying => {
            if ok {
                Step::Finished(Ok(()))
            } else {
                fail(DaemonErrorKind::Io, outcome)
            }
        },
        Pending::Disconnecting => {
            if ok {
                state.clear();
                Step::Perform(Action::ForgetPid, Pending::Forgetting)
            } else {
                fail(DaemonErrorKind::ProcessControl, outcome)
            }
        },
        Pending::Forgetting => Step::Finished(Ok(())),
        Pending::Reapplying { server, protocol } => {
            if !ok {
                fail(DaemonErrorKind::Firewall, outcome)
            } else {
                state.switch(true);
                match &state.active_server {
                    Some(active) => Step::Perform(
                        Action::Terminate { pid: active.pid },
                        Pending::Replacing { server, protocol },
                    ),
                    None => Step::Perform(
                        Action::Launch { server, protocol },
                        Pending::Launching { server, protocol },
                    ),
                }
            }
        },
        Pending::Replacing { server, protocol } => {
            if ok {
                Step::Perform(
                    Action::Launch { server, protocol },
                    Pending::Launching { server, protocol },
                )
            } else {
                fail(DaemonErrorKind::ProcessControl, outcome)
            }
        },
        Pending::Launching { server, protocol } => match outcome {
            Outcome::Started(pid) => {
                if server < state.servers.len() {
                    let record = state.servers[server].clone();
                    state.active_server = Some(ActiveServer { pid, server: record, protocol });
                    Step::Finished(Ok(()))
                } else {
                    refuse(DaemonErrorKind::Configuration, "no such server in the directory")
                }
            },
            Outcome::Succeeded => refuse(
                DaemonErrorKind::Configuration,
                "the tunnel reported no process",
            ),
            Outcome::Failed(detail) => fail(
                DaemonErrorKind::Configuration,
                Outcome::Failed(detail),
            ),
        },
        Pending::Enabling => {
            if ok {
                state.switch(true);
                Step::Finished(Ok(()))
            } else {
                fail(DaemonErrorKind::Firewall, outcome)
            }
        },
        Pending::Disabling => {
            if ok {
                state.switch(false);
                Step::Finished(Ok(()))
            } else {
                fail(DaemonErrorKind::Firewall, outcome)
            }
        },
        Pending::Lowering { cause } => {
            if ok {
                state.switch(false);
            }
            match cause {
                Shutdown::Signal => cleanup_vpn_process(state, 1, cause),
                Shutdown::Stop => Step::Exit,
            }
        },
        Pending::Quelling { attempt, cause } => {
            let pid = match &state.active_server {
                None => {
                    return Step::Exit;
                },
                Some(active) => active.pid,
            };
            if ok {
                state.clear();
                Step::Perform(Action::ForgetPid, Pending::Leaving { cause })
            } else {
                Step::Perform(Action::Kill { pid }, Pending::Forcing { attempt, cause })
            }
        },
        Pending::Forcing { attempt, cause } => {
            let pid = match &state.active_server {
                None => {
                    return Step::Exit;
                },
                Some(active) => active.pid,
            };
            if ok {
                state.clear();
                Step::Perform(Action::ForgetPid, Pending::Leaving { cause })
            } else if attempt < TEARDOWN_ATTEMPTS {
                Step::Perform(
                    Action::Terminate { pid },
                    Pending::Quelling { attempt: attempt + 1, cause },
                )
            } else {
                Step::Exit
            }
        },
        Pending::Leaving { cause } => finish_teardown(state, cause),
    }
}

// ---------------------------------------------------------------------------
// Startup and the control socket
// ---------------------------------------------------------------------------

/// One step of the daemon's startup.
#[derive(Debug)]
pub enum StartupStep {
    /// Handle this request as if a client had sent it. Where `fatal` is
    /// set, startup is given up if the request fails; else a failure is
    /// only reported.
    Handle { request: Request, fatal: bool },
    /// Ask the tunnel process that an earlier run left behind to end. A
    /// failure is only reported.
    Reap { pid: Pid },
    /// Start to listen for interrupt and termination signals.
    WatchSignals,
    /// Remove what an earlier run left at `socket`, bind the control socket
    /// there and serve clients, one at a time.
    Serve { socket: String },
}

pub enum StartupStepView {
    Handle { request: RequestView, fatal: bool },
    Reap { pid: u32 },
    WatchSignals,
    Serve { socket: Seq<char> },
}

impl View for StartupStep {
    type V = StartupStepView;

    open spec fn view(&self) -> StartupStepView {
        match self {
            StartupStep::Handle { request, fatal } => StartupStepView::Handle {
                request: request@,
                fatal: *fatal,
            },
            StartupStep::Reap { pid } => StartupStepView::Reap { pid: pid@ },
            StartupStep::WatchSignals => StartupStepView::WatchSignals,
            StartupStep::Serve { socket } => StartupStepView::Serve { socket: socket@ },
        }
    }
}

/// The views of a list of startup steps.
pub open spec fn startup_views(steps: Seq<StartupStep>) -> Seq<StartupStepView> {
    Seq::new(steps.len(), |i: int| steps[i]@)
}

/// The startup, in order: the killswitch is enabled first where the
/// configuration asks for it, and startup depends on it; a tunnel process
/// that was left behind is ended; signals are listened for; the default
/// server, if there is one, is connected to; then clients are served on the
/// control socket.
pub open spec fn startup_steps(
    killswitch: bool,
    leftover: Option<u32>,
    default_server: Option<Seq<char>>,
    default_protocol: Protocol,
) -> Seq<StartupStepView> {
    (if killswitch {
        seq![StartupStepView::Handle { request: RequestView::Killswitch(true), fatal: true }]
    } else {
        Seq::<StartupStepView>::empty()
    }) + (match leftover {
        Some(pid) => seq![StartupStepView::Reap { pid }],
        None => Seq::<StartupStepView>::empty(),
    }) + seq![StartupStepView::WatchSignals] + (match default_server {
        Some(id) => seq![
            StartupStepView::Handle {
                request: RequestView::Connect(id, default_protocol),
                fatal: false,
            },
        ],
        None => Seq::<StartupStepView>::empty(),
    }) + seq![StartupStepView::Serve { socket: socket_file() }]
}

/// Plans the startup for a default server that has been picked already.
pub fn startup_plan(
    killswitch: bool,
    leftover: Option<Pid>,
    default_server: Option<&str>,
    default_protocol: Protocol,
) -> (steps: Vec<StartupStep>)
    ensures
        startup_views(steps@) == startup_steps(
            killswitch,
            match leftover {
                Some(pid) => Some(pid@),
                None => None,
            },
            match default_server {
                Some(id) => Some(id@),
                None => None,
            },
            default_protocol,
        ),
{
    let mut steps: Vec<StartupStep> = Vec::new();
    if killswitch {
        steps.push(StartupStep::Handle { request: Request::Killswitch(true), fatal: true });
    }
    match leftover {
        Some(pid) => {
            steps.push(StartupStep::Reap { pid });
        },
        None => {},
    }
    steps.push(StartupStep::WatchSignals);
    match default_server {
        Some(id) => {
            steps.push(
                StartupStep::Handle {
                    request: Request::Connect(id.to_owned(), default_protocol),
                    fatal: false,
                },
            );
        },
        None => {},
    }
    steps.push(StartupStep::Serve { socket: socket_path() });
    assert(startup_views(steps@) =~= startup_steps(
        killswitch,
        match leftover {
            Some(pid) => Some(pid@),
            None => None,
        },
        match default_server {
            Some(id) => Some(id@),
            None => None,
        },
        default_protocol,
    ));
    steps
}

/// Whether `record` may be picked from `passing` in the given way: the
/// fastest and the least loaded are least by their key, a pick by chance may
/// be any of them.
pub open spec fn eligible(
    passing: Seq<LogicalServerView>,
    record: LogicalServerView,
    select: Select,
) -> bool {
    match select {
        Select::Fastest => least(passing, record, SortOrder::Speed),
        Select::LeastLoad => least(passing, record, SortOrder::Load),
        Select::Random => passing.contains(record),
    }
}

/// Plans the startup of the daemon.
///
/// The default server is picked from the servers that pass the configured
/// criteria, in the configured way, which may be by chance. `leftover` is
/// the process identifier that an earlier run left on record.
pub fn start_service(config: &Configuration, servers: &LogicalServers, leftover: Option<Pid>) -> (steps:
    Vec<StartupStep>)
    ensures
        ({
            let passing = servers@.filter(
                |record: LogicalServerView| record.passes(config.default_criteria),
            );
            let leftover_pid = match leftover {
                Some(pid) => Some(pid@),
                None => None,
            };
            if passing.len() == 0 {
                startup_views(steps@) == startup_steps(
                    config.killswitch.enable,
                    leftover_pid,
                    None,
                    config.default_protocol,
                )
            } else {
                exists|record: LogicalServerView|
                    #[trigger] eligible(passing, record, config.default_select) && startup_views(
                        steps@,
                    ) == startup_steps(
                        config.killswitch.enable,
                        leftover_pid,
                        Some(record.id),
                        config.default_protocol,
                    )
            }
        }),
{
    let default_server = servers.to_filtered(&config.default_criteria).select(
        &config.default_select,
    );
    match default_server {
        Some(server) => {
            let ghost passing = servers@.filter(
                |record: LogicalServerView| record.passes(config.default_criteria),
            );
            proof {
                assert(eligible(passing, server@, config.default_select));
            }
            startup_plan(
                config.killswitch.enable,
                leftover,
                Some(server.id.as_str()),
                config.default_protocol,
            )
        },
        None => startup_plan(config.killswitch.enable, leftover, None, config.default_protocol),
    }
}

/// The path of the control socket.
pub open spec fn socket_file() -> Seq<char> {
    joined(cache_dir(), "socket"@)
}

/// The path of the control socket.
pub fn socket_path() -> (path: String)
    ensures
        path@ == socket_file(),
{
    join_path(get_path().as_str(), "socket")
}

/// Why a request could not be sent.
#[derive(Debug, Clone, Copy, PartialEq, Eq, Structural)]
pub enum SendErrorKind {
    /// The socket may not be opened by this user.
    PermissionDenied,
    /// The socket could not be opened for another reason.
    Unreachable,
    /// The message could not be written.
    NotSent,
}

/// What a client is told when its request could not be sent: for a socket
/// that it may not open, how to get access; else the report of the failure.
pub open spec fn send_failure_text(kind: SendErrorKind, report: Seq<char>) -> Seq<char> {
    match kind {
        SendErrorKind::PermissionDenied => "Permission denied, fix this by running `sudo chown $(whoami) "@
            + socket_file(),
        SendErrorKind::Unreachable => "unable to open socket, "@ + report,
        SendErrorKind::NotSent => "couldn't send message"@,
    }
}

/// What a client is told when its request could not be sent.
pub fn send_failure(kind: SendErrorKind, report: &str) -> (text: String)
    ensures
        text@ == send_failure_text(kind, report@),
{
    match kind {
        SendErrorKind::PermissionDenied => {
            let mut text = "Permission denied, fix this by running `sudo chown $(whoami) ".to_owned();
            text.append(socket_path().as_str());
            text
        },
        SendErrorKind::Unreachable => {
            let mut text = "unable to open socket, ".to_owned();
            text.append(report);
            text
        },
        SendErrorKind::NotSent => "couldn't send message".to_owned(),
    }
}

/// What a client sends for a request: where to, and which bytes.
pub fn send_request(req: Request) -> (parcel: (String, Vec<u8>))
    ensures
        parcel.0@ == socket_file(),
        parcel.1@ == vstd::utf8::encode_utf8(crate::protocol::encode_request(req@)),
{
    (socket_path(), req.serialize())
}

} // verus!
