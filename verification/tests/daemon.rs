use protonvpn_rs::api::types::{Country, EntryIp, Features, LogicalServer, Server};
use protonvpn_rs::api::LogicalServers;
use protonvpn_rs::client::openvpn::Protocol;
use protonvpn_rs::client::Pid;
use protonvpn_rs::config::{Configuration, Select};
use protonvpn_rs::daemon::{
    access_of, resume_reading, Access,
    cleanup_vpn_process, handle_connect_request, handle_disconnect_request,
    handle_killswitch_request, handle_message, handle_signal, handle_socket_request,
    handle_status_request, handle_stop_request, resume, send_failure, send_request, socket_path,
    start_service, startup_plan, Action, DaemonErrorKind, KillswitchState, Lifecycle, Outcome,
    Pending,
    SendErrorKind, Shutdown, StartupStep, State, Step,
};
use protonvpn_rs::protocol::{DecodeErrorKind, Request, Response, ServerStatus};

fn record(id: &str, name: &str, ips: &[[u8; 4]]) -> LogicalServer {
    LogicalServer {
        name: name.to_string(),
        exit_country: Country::NL,
        tier: 2,
        features: Features::from_bits(12).unwrap(),
        score: 10,
        id: id.to_string(),
        status: 1,
        servers: ips
            .iter()
            .map(|ip| Server { entry_ip: EntryIp(ip[0], ip[1], ip[2], ip[3]) })
            .collect(),
        load: 20,
    }
}

fn directory() -> Vec<LogicalServer> {
    vec![
        record("one", "NL#1", &[[10, 0, 0, 1], [10, 0, 0, 2]]),
        record("two", "NL#2", &[[10, 0, 1, 1]]),
        record("dup", "first", &[[10, 0, 2, 1]]),
        record("dup", "second", &[[10, 0, 2, 2]]),
    ]
}

fn ok() -> Outcome {
    Outcome::Succeeded
}

fn failed(text: &str) -> Outcome {
    Outcome::Failed(text.to_string())
}

/// Feeds the outcomes to the daemon, one per action, and collects the
/// actions it hands out.
fn drive(state: &mut State, first: Step, outcomes: Vec<Outcome>) -> (Vec<Action>, Step) {
    let mut actions = Vec::new();
    let mut step = first;
    let mut outcomes = outcomes.into_iter();
    loop {
        match step {
            Step::Perform(action, pending) => {
                actions.push(action);
                match outcomes.next() {
                    Some(outcome) => step = resume(state, pending, outcome),
                    None => panic!("the daemon asked for more than the test has outcomes for"),
                }
            }
            last => return (actions, last),
        }
    }
}

fn connected(id: &str, protocol: Protocol, pid: u32) -> State {
    let mut state = State::new(directory());
    let first = handle_connect_request(id, &protocol, &state);
    let (_, last) = drive(&mut state, first, vec![Outcome::Started(Pid::from(pid))]);
    assert!(matches!(last, Step::Finished(Ok(()))));
    state
}

fn launches(actions: &[Action]) -> usize {
    actions.iter().filter(|a| matches!(a, Action::Launch { .. })).count()
}

fn terminations(actions: &[Action]) -> usize {
    actions.iter().filter(|a| matches!(a, Action::Terminate { .. })).count()
}

#[test]
fn new_state_is_idle() {
    let state = State::new(directory());
    assert!(state.active_server.is_none());
    assert_eq!(state.killswitch, KillswitchState { enabled: false, backup_exists: false });
    assert_eq!(state.servers.len(), 4);
}

#[test]
fn lookup_takes_the_last_record_with_the_identifier() {
    let state = State::new(directory());
    assert_eq!(state.lookup("one"), Some(0));
    assert_eq!(state.lookup("two"), Some(1));
    assert_eq!(state.lookup("dup"), Some(3));
    assert_eq!(state.lookup("none"), None);
    assert_eq!(state.lookup(""), None);
}

#[test]
fn connect_from_idle_launches_and_records_the_connection() {
    let mut state = State::new(directory());
    let first = handle_connect_request("one", &Protocol::Udp, &state);
    match &first {
        Step::Perform(Action::Launch { server, protocol }, Pending::Launching { .. }) => {
            assert_eq!(*server, 0);
            assert_eq!(*protocol, Protocol::Udp);
        }
        other => panic!("unexpected step {:?}", other),
    }
    let (actions, last) = drive(&mut state, first, vec![Outcome::Started(Pid::from(77))]);
    assert!(matches!(last, Step::Finished(Ok(()))));
    assert_eq!(actions.len(), 1);
    let active = state.active_server.as_ref().unwrap();
    assert_eq!(active.pid.as_u32(), 77);
    assert_eq!(active.server.id, "one");
    assert_eq!(active.server.name, "NL#1");
    assert_eq!(active.server.servers.len(), 2);
    assert_eq!(active.protocol, Protocol::Udp);
}

#[test]
fn connect_twice_with_the_same_arguments_launches_once() {
    let mut state = State::new(directory());
    let first = handle_connect_request("one", &Protocol::Udp, &state);
    let (one, last) = drive(&mut state, first, vec![Outcome::Started(Pid::from(5))]);
    assert!(matches!(last, Step::Finished(Ok(()))));
    let second = handle_connect_request("one", &Protocol::Udp, &state);
    let (two, last) = drive(&mut state, second, vec![]);
    assert!(matches!(last, Step::Finished(Ok(()))));
    assert!(two.is_empty());
    assert_eq!(launches(&one) + launches(&two), 1);
    assert_eq!(state.active_server.as_ref().unwrap().pid.as_u32(), 5);
}

#[test]
fn connect_to_an_unknown_server_is_ignored() {
    let mut state = connected("one", Protocol::Udp, 5);
    let first = handle_connect_request("nowhere", &Protocol::Tcp, &state);
    let (actions, last) = drive(&mut state, first, vec![]);
    assert!(actions.is_empty());
    assert!(matches!(last, Step::Finished(Ok(()))));
    assert_eq!(state.active_server.as_ref().unwrap().server.id, "one");
}

#[test]
fn connect_to_another_server_terminates_the_earlier_process_once() {
    let mut state = connected("one", Protocol::Udp, 5);
    let first = handle_connect_request("two", &Protocol::Udp, &state);
    let (actions, last) =
        drive(&mut state, first, vec![ok(), Outcome::Started(Pid::from(6))]);
    assert!(matches!(last, Step::Finished(Ok(()))));
    assert_eq!(actions.len(), 2);
    assert!(matches!(&actions[0], Action::Terminate { pid } if pid.as_u32() == 5));
    assert!(matches!(&actions[1], Action::Launch { server: 1, protocol: Protocol::Udp }));
    assert_eq!(terminations(&actions), 1);
    let active = state.active_server.as_ref().unwrap();
    assert_eq!(active.server.id, "two");
    assert_eq!(active.pid.as_u32(), 6);
}

#[test]
fn protocol_change_with_killswitch_applies_rules_before_termination() {
    let mut state = connected("one", Protocol::Udp, 5);
    let enable = handle_killswitch_request(&state, &true);
    let (_, last) = drive(&mut state, enable, vec![ok()]);
    assert!(matches!(last, Step::Finished(Ok(()))));
    assert!(state.killswitch.enabled);

    let first = handle_connect_request("two", &Protocol::Tcp, &state);
    let (actions, last) =
        drive(&mut state, first, vec![ok(), ok(), Outcome::Started(Pid::from(6))]);
    assert!(matches!(last, Step::Finished(Ok(()))));
    assert_eq!(actions.len(), 3);
    match &actions[0] {
        Action::EnableKillswitch { protocol, entry_ips, backup_known } => {
            assert_eq!(*protocol, Protocol::Tcp);
            assert_eq!(entry_ips, &vec![EntryIp(10, 0, 0, 1), EntryIp(10, 0, 0, 2)]);
            assert!(*backup_known);
        }
        other => panic!("unexpected action {:?}", other),
    }
    assert!(matches!(&actions[1], Action::Terminate { pid } if pid.as_u32() == 5));
    assert!(matches!(&actions[2], Action::Launch { server: 1, protocol: Protocol::Tcp }));
    assert_eq!(terminations(&actions), 1);
    assert!(state.killswitch.enabled);
}

#[test]
fn same_protocol_with_killswitch_does_not_reapply_rules() {
    let mut state = connected("one", Protocol::Udp, 5);
    let enable = handle_killswitch_request(&state, &true);
    drive(&mut state, enable, vec![ok()]);
    let first = handle_connect_request("two", &Protocol::Udp, &state);
    let (actions, _) = drive(&mut state, first, vec![ok(), Outcome::Started(Pid::from(6))]);
    assert_eq!(actions.len(), 2);
    assert!(matches!(&actions[0], Action::Terminate { .. }));
}

#[test]
fn failed_reapply_leaves_the_tunnel_alone() {
    let mut state = connected("one", Protocol::Udp, 5);
    let enable = handle_killswitch_request(&state, &true);
    drive(&mut state, enable, vec![ok()]);
    let first = handle_connect_request("one", &Protocol::Tcp, &state);
    let (actions, last) = drive(&mut state, first, vec![failed("iptables said no")]);
    assert_eq!(actions.len(), 1);
    assert_eq!(terminations(&actions), 0);
    match last {
        Step::Finished(Err(e)) => {
            assert_eq!(e.kind, DaemonErrorKind::Firewall);
            assert_eq!(e.detail, "iptables said no");
        }
        other => panic!("unexpected step {:?}", other),
    }
    let active = state.active_server.as_ref().unwrap();
    assert_eq!(active.pid.as_u32(), 5);
    assert_eq!(active.protocol, Protocol::Udp);
}

#[test]
fn failed_termination_and_failed_launch_leave_the_state_unchanged() {
    let mut state = connected("one", Protocol::Udp, 5);
    let first = handle_connect_request("two", &Protocol::Udp, &state);
    let (actions, last) = drive(&mut state, first, vec![failed("no such process")]);
    assert_eq!(actions.len(), 1);
    assert!(matches!(last, Step::Finished(Err(e)) if e.kind == DaemonErrorKind::ProcessControl));
    assert_eq!(state.active_server.as_ref().unwrap().server.id, "one");

    let first = handle_connect_request("two", &Protocol::Udp, &state);
    let (actions, last) = drive(&mut state, first, vec![ok(), failed("no credentials")]);
    assert_eq!(actions.len(), 2);
    match last {
        Step::Finished(Err(e)) => {
            assert_eq!(e.kind, DaemonErrorKind::Configuration);
            assert_eq!(e.detail, "no credentials");
        }
        other => panic!("unexpected step {:?}", other),
    }
    assert_eq!(state.active_server.as_ref().unwrap().server.id, "one");

    let first = handle_connect_request("two", &Protocol::Udp, &state);
    let (_, last) = drive(&mut state, first, vec![ok(), ok()]);
    assert!(matches!(last, Step::Finished(Err(e)) if e.kind == DaemonErrorKind::Configuration));
}

#[test]
fn disconnect_while_idle_does_nothing() {
    let mut state = State::new(directory());
    let first = handle_disconnect_request(&state);
    let (actions, last) = drive(&mut state, first, vec![]);
    assert!(actions.is_empty());
    assert!(matches!(last, Step::Finished(Ok(()))));
    assert!(state.active_server.is_none());
}

#[test]
fn disconnect_terminates_clears_and_forgets() {
    let mut state = connected("one", Protocol::Udp, 5);
    let first = handle_disconnect_request(&state);
    let (actions, last) = drive(&mut state, first, vec![ok(), failed("no pid file")]);
    assert!(matches!(last, Step::Finished(Ok(()))));
    assert_eq!(actions.len(), 2);
    assert!(matches!(&actions[0], Action::Terminate { pid } if pid.as_u32() == 5));
    assert!(matches!(&actions[1], Action::ForgetPid));
    assert!(state.active_server.is_none());
}

#[test]
fn failed_disconnect_keeps_the_connection() {
    let mut state = connected("one", Protocol::Udp, 5);
    let first = handle_disconnect_request(&state);
    let (actions, last) = drive(&mut state, first, vec![failed("denied")]);
    assert_eq!(actions.len(), 1);
    match last {
        Step::Finished(Err(e)) => {
            assert_eq!(e.kind, DaemonErrorKind::ProcessControl);
            assert_eq!(e.detail, "denied");
        }
        other => panic!("unexpected step {:?}", other),
    }
    assert_eq!(state.active_server.as_ref().unwrap().pid.as_u32(), 5);
}

#[test]
fn killswitch_without_connection_fails_and_changes_nothing() {
    let mut state = State::new(directory());
    let before = state.killswitch;
    let first = handle_killswitch_request(&state, &true);
    let (actions, last) = drive(&mut state, first, vec![]);
    assert!(actions.is_empty());
    match last {
        Step::Finished(Err(e)) => {
            assert_eq!(e.kind, DaemonErrorKind::NoActiveConnection);
            assert_eq!(e.detail, "cannot enable killswitch without an active connection");
        }
        other => panic!("unexpected step {:?}", other),
    }
    assert_eq!(state.killswitch, before);
    assert!(state.active_server.is_none());
}

#[test]
fn killswitch_enable_twice_reuses_the_backup() {
    let mut state = connected("one", Protocol::Udp, 5);
    let first = handle_killswitch_request(&state, &true);
    match &first {
        Step::Perform(Action::EnableKillswitch { protocol, entry_ips, backup_known }, _) => {
            assert_eq!(*protocol, Protocol::Udp);
            assert_eq!(entry_ips.len(), 2);
            assert!(!*backup_known);
        }
        other => panic!("unexpected step {:?}", other),
    }
    drive(&mut state, first, vec![ok()]);
    assert_eq!(state.killswitch, KillswitchState { enabled: true, backup_exists: true });
    let second = handle_killswitch_request(&state, &true);
    assert!(matches!(
        &second,
        Step::Perform(Action::EnableKillswitch { backup_known: true, .. }, Pending::Enabling)
    ));
    drive(&mut state, second, vec![ok()]);
    assert_eq!(state.killswitch, KillswitchState { enabled: true, backup_exists: true });
}

#[test]
fn killswitch_disable_keeps_the_backup_on_record() {
    let mut state = connected("one", Protocol::Udp, 5);
    let first = handle_killswitch_request(&state, &true);
    drive(&mut state, first, vec![ok()]);
    let off = handle_killswitch_request(&state, &false);
    let (actions, last) = drive(&mut state, off, vec![ok()]);
    assert!(matches!(&actions[0], Action::DisableKillswitch));
    assert!(matches!(last, Step::Finished(Ok(()))));
    assert_eq!(state.killswitch, KillswitchState { enabled: false, backup_exists: true });
}

#[test]
fn killswitch_failure_does_not_update_the_flag() {
    let mut state = connected("one", Protocol::Udp, 5);
    let first = handle_killswitch_request(&state, &true);
    let (_, last) = drive(&mut state, first, vec![failed("backup failed")]);
    assert!(matches!(last, Step::Finished(Err(e)) if e.kind == DaemonErrorKind::Firewall));
    assert_eq!(state.killswitch, KillswitchState { enabled: false, backup_exists: false });

    let first = handle_killswitch_request(&state, &true);
    drive(&mut state, first, vec![ok()]);
    let off = handle_killswitch_request(&state, &false);
    let (_, last) = drive(&mut state, off, vec![failed("restore failed")]);
    assert!(matches!(last, Step::Finished(Err(e)) if e.kind == DaemonErrorKind::Firewall));
    assert!(state.killswitch.enabled);
}

#[test]
fn killswitch_disable_needs_no_connection() {
    let mut state = State::new(directory());
    let off = handle_killswitch_request(&state, &false);
    let (actions, last) = drive(&mut state, off, vec![ok()]);
    assert_eq!(actions.len(), 1);
    assert!(matches!(last, Step::Finished(Ok(()))));
    assert!(!state.killswitch.enabled);
}

#[test]
fn status_reports_the_connection() {
    let state = State::new(directory());
    assert!(matches!(state.status(), Response::Status(ServerStatus::Disconnected)));
    let mut state = connected("two", Protocol::Tcp, 4321);
    match state.status() {
        Response::Status(ServerStatus::Connected { name, pid, protocol }) => {
            assert_eq!(name, "NL#2");
            assert_eq!(pid.as_u32(), 4321);
            assert_eq!(protocol, Protocol::Tcp);
        }
        other => panic!("unexpected status {:?}", other),
    }
    let first = handle_status_request(&state);
    let (actions, last) = drive(&mut state, first, vec![ok()]);
    assert!(matches!(&actions[0], Action::Reply(Response::Status(ServerStatus::Connected { .. }))));
    assert!(matches!(last, Step::Finished(Ok(()))));
    let first = handle_status_request(&state);
    let (_, last) = drive(&mut state, first, vec![failed("broken pipe")]);
    assert!(matches!(last, Step::Finished(Err(e)) if e.kind == DaemonErrorKind::Io));
}

#[test]
fn messages_are_decoded_and_dispatched() {
    let mut state = State::new(directory());
    let step = handle_message("connect:two:tcp", &state);
    assert!(matches!(
        &step,
        Step::Perform(Action::Launch { server: 1, protocol: Protocol::Tcp }, _)
    ));
    drive(&mut state, step, vec![Outcome::Started(Pid::from(9))]);
    assert!(matches!(
        handle_message("status", &state),
        Step::Perform(Action::Reply(_), Pending::Replying)
    ));
    assert!(matches!(
        handle_message("disconnect", &state),
        Step::Perform(Action::Terminate { .. }, Pending::Disconnecting)
    ));
    assert!(matches!(
        handle_message("killswitch:true", &state),
        Step::Perform(Action::EnableKillswitch { .. }, Pending::Enabling)
    ));
    match handle_message("bogus:message", &state) {
        Step::Finished(Err(e)) => {
            assert_eq!(e.kind, DaemonErrorKind::Decode(DecodeErrorKind::UnknownCommand));
            assert_eq!(e.detail, "bogus:message");
        }
        other => panic!("unexpected step {:?}", other),
    }
    match handle_message("connect:two", &state) {
        Step::Finished(Err(e)) => {
            assert_eq!(e.kind, DaemonErrorKind::Decode(DecodeErrorKind::IncorrectArguments));
        }
        other => panic!("unexpected step {:?}", other),
    }
    assert!(matches!(
        handle_socket_request(&Request::Disconnect, &State::new(directory())),
        Step::Finished(Ok(()))
    ));
}

#[test]
fn signal_disables_the_killswitch_then_tears_down() {
    let mut state = connected("one", Protocol::Udp, 5);
    let first = handle_killswitch_request(&state, &true);
    drive(&mut state, first, vec![ok()]);
    let first = handle_signal(&state);
    let (actions, last) = drive(&mut state, first, vec![failed("x"), ok(), ok()]);
    assert!(matches!(last, Step::Exit));
    assert_eq!(actions.len(), 3);
    assert!(matches!(&actions[0], Action::DisableKillswitch));
    assert!(matches!(&actions[1], Action::Terminate { pid } if pid.as_u32() == 5));
    assert!(matches!(&actions[2], Action::ForgetPid));
    assert!(state.active_server.is_none());
    assert!(state.killswitch.enabled);
}

#[test]
fn signal_without_tunnel_or_killswitch_exits_at_once() {
    let state = State::new(directory());
    assert!(matches!(handle_signal(&state), Step::Exit));
    assert!(matches!(handle_stop_request(&state), Step::Exit));
    assert!(matches!(cleanup_vpn_process(&state, 1, Shutdown::Signal), Step::Exit));
}

#[test]
fn teardown_escalates_and_gives_up_after_three_attempts() {
    let mut state = connected("one", Protocol::Udp, 5);
    let first = handle_signal(&state);
    let (actions, last) = drive(
        &mut state,
        first,
        vec![failed("a"), failed("b"), failed("c"), failed("d"), failed("e"), failed("f")],
    );
    assert!(matches!(last, Step::Exit));
    assert_eq!(actions.len(), 6);
    for attempt in 0..3 {
        assert!(matches!(&actions[2 * attempt], Action::Terminate { pid } if pid.as_u32() == 5));
        assert!(matches!(&actions[2 * attempt + 1], Action::Kill { pid } if pid.as_u32() == 5));
    }
    assert_eq!(terminations(&actions), 3);
    assert!(state.active_server.is_some());
}

#[test]
fn teardown_stops_at_the_first_attempt_that_works() {
    let mut state = connected("one", Protocol::Udp, 5);
    let first = handle_signal(&state);
    let (actions, last) = drive(&mut state, first, vec![failed("a"), ok(), ok()]);
    assert!(matches!(last, Step::Exit));
    assert_eq!(actions.len(), 3);
    assert!(matches!(&actions[0], Action::Terminate { .. }));
    assert!(matches!(&actions[1], Action::Kill { .. }));
    assert!(matches!(&actions[2], Action::ForgetPid));
    assert!(state.active_server.is_none());

    let mut state = connected("one", Protocol::Udp, 5);
    let first = handle_signal(&state);
    let (actions, _) = drive(&mut state, first, vec![failed("a"), failed("b"), ok(), ok()]);
    assert_eq!(actions.len(), 4);
    assert!(matches!(&actions[2], Action::Terminate { .. }));
    assert!(matches!(&actions[3], Action::ForgetPid));
}

#[test]
fn stop_tears_down_before_it_disables_the_killswitch() {
    let mut state = connected("one", Protocol::Udp, 5);
    let first = handle_killswitch_request(&state, &true);
    drive(&mut state, first, vec![ok()]);
    let first = handle_stop_request(&state);
    let (actions, last) = drive(&mut state, first, vec![ok(), ok(), ok()]);
    assert!(matches!(last, Step::Exit));
    assert_eq!(actions.len(), 3);
    assert!(matches!(&actions[0], Action::Terminate { .. }));
    assert!(matches!(&actions[1], Action::ForgetPid));
    assert!(matches!(&actions[2], Action::DisableKillswitch));
    assert!(!state.killswitch.enabled);
}

#[test]
fn startup_plan_orders_the_steps() {
    let steps = startup_plan(true, Some(Pid::from(99)), Some("one"), Protocol::Tcp);
    assert_eq!(steps.len(), 5);
    assert!(matches!(
        &steps[0],
        StartupStep::Handle { request: Request::Killswitch(true), fatal: true }
    ));
    assert!(matches!(&steps[1], StartupStep::Reap { pid } if pid.as_u32() == 99));
    assert!(matches!(&steps[2], StartupStep::WatchSignals));
    match &steps[3] {
        StartupStep::Handle { request, fatal } => {
            assert_eq!(request, &Request::Connect("one".into(), Protocol::Tcp));
            assert!(!*fatal);
        }
        other => panic!("unexpected step {:?}", other),
    }
    assert!(matches!(&steps[4], StartupStep::Serve { socket } if socket == "/etc/protonvpn-rs/socket"));

    let steps = startup_plan(false, None, None, Protocol::Udp);
    assert_eq!(steps.len(), 2);
    assert!(matches!(&steps[0], StartupStep::WatchSignals));
    assert!(matches!(&steps[1], StartupStep::Serve { .. }));
}

#[test]
fn start_service_connects_to_the_selected_default() {
    let mut fast = record("fast", "fast", &[[1, 1, 1, 1]]);
    fast.score = 1;
    let mut slow = record("slow", "slow", &[[2, 2, 2, 2]]);
    slow.score = 900;
    let mut free = record("free", "free", &[[3, 3, 3, 3]]);
    free.tier = 0;
    free.score = 0;
    let servers = LogicalServers::new(vec![slow, free, fast]);
    let config = Configuration::default();
    let steps = start_service(&config, &servers, None);
    assert_eq!(steps.len(), 3);
    match &steps[1] {
        StartupStep::Handle { request, fatal: false } => {
            assert_eq!(request, &Request::Connect("fast".into(), Protocol::Udp));
        }
        other => panic!("unexpected step {:?}", other),
    }

    let mut config = Configuration::default();
    config.default_select = Select::Random;
    config.killswitch.enable = true;
    let steps = start_service(&config, &servers, Some(Pid::from(3)));
    assert_eq!(steps.len(), 5);
    match &steps[3] {
        StartupStep::Handle { request: Request::Connect(id, Protocol::Udp), fatal: false } => {
            assert!(id == "fast" || id == "slow");
        }
        other => panic!("unexpected step {:?}", other),
    }

    let steps = start_service(&Configuration::default(), &LogicalServers::new(vec![]), None);
    assert_eq!(steps.len(), 2);
}

#[test]
fn requests_are_sent_to_the_socket() {
    assert_eq!(socket_path(), "/etc/protonvpn-rs/socket");
    let (path, bytes) = send_request(Request::Connect("one".into(), Protocol::Udp));
    assert_eq!(path, "/etc/protonvpn-rs/socket");
    assert_eq!(bytes, b"connect:one:udp".to_vec());
    assert_eq!(
        send_failure(SendErrorKind::PermissionDenied, "ignored"),
        "Permission denied, fix this by running `sudo chown $(whoami) /etc/protonvpn-rs/socket"
    );
    assert_eq!(
        send_failure(SendErrorKind::Unreachable, "connection refused"),
        "unable to open socket, connection refused"
    );
    assert_eq!(send_failure(SendErrorKind::NotSent, ""), "couldn't send message");
}

#[test]
fn lifecycle_goes_from_idle_to_connected_and_back() {
    let mut state = State::new(directory());
    assert_eq!(state.lifecycle(None), Lifecycle::Idle);
    let step = handle_connect_request("one", &Protocol::Udp, &state);
    let pending = match step {
        Step::Perform(_, pending) => pending,
        other => panic!("unexpected step {:?}", other),
    };
    assert_eq!(state.lifecycle(Some(pending)), Lifecycle::Connecting);
    let step = resume(&mut state, pending, Outcome::Started(Pid::from(1)));
    assert!(matches!(step, Step::Finished(Ok(()))));
    assert_eq!(state.lifecycle(None), Lifecycle::Connected);
    assert_eq!(state.lifecycle(Some(Pending::Replying)), Lifecycle::Connected);
    let step = handle_disconnect_request(&state);
    let pending = match step {
        Step::Perform(_, pending) => pending,
        other => panic!("unexpected step {:?}", other),
    };
    assert_eq!(state.lifecycle(Some(pending)), Lifecycle::Disconnecting);
    let step = resume(&mut state, pending, Outcome::Succeeded);
    let pending = match step {
        Step::Perform(Action::ForgetPid, pending) => pending,
        other => panic!("unexpected step {:?}", other),
    };
    assert_eq!(state.lifecycle(Some(pending)), Lifecycle::Idle);
    assert_eq!(state.lifecycle(None), Lifecycle::Idle);
}

#[test]
fn only_status_requests_read() {
    assert_eq!(access_of(&Request::Status), Access::Read);
    assert_eq!(access_of(&Request::Disconnect), Access::Write);
    assert_eq!(access_of(&Request::Connect("one".into(), Protocol::Udp)), Access::Write);
    assert_eq!(access_of(&Request::Killswitch(true)), Access::Write);
    assert_eq!(access_of(&Request::Killswitch(false)), Access::Write);

    let state = connected("one", Protocol::Udp, 5);
    let pending = match handle_status_request(&state) {
        Step::Perform(Action::Reply(_), pending) => pending,
        other => panic!("unexpected step {:?}", other),
    };
    assert!(matches!(resume_reading(&state, pending, ok()), Some(Step::Finished(Ok(())))));
    match resume_reading(&state, pending, failed("closed")) {
        Some(Step::Finished(Err(e))) => {
            assert_eq!(e.kind, DaemonErrorKind::Io);
            assert_eq!(e.detail, "closed");
        }
        other => panic!("unexpected step {:?}", other),
    }
    assert!(resume_reading(&state, Pending::Disconnecting, ok()).is_none());
    assert!(resume_reading(&state, Pending::Enabling, ok()).is_none());
    assert_eq!(state.active_server.as_ref().unwrap().pid.as_u32(), 5);
}
