use protonvpn_rs::client::Pid;
use protonvpn_rs::service::{linux, macos};
use protonvpn_rs::utils::{
    absolute_binary_path, exec_result, find_nic, input_result, kill_process, output_result,
    wait_for_file_and_read, Cmd, CmdErrorKind, KillErrorKind, Nic, WaitStep, WatchEvent,
};

fn argv(cmd: &Cmd) -> Vec<String> {
    let mut all = vec![cmd.program.clone()];
    all.extend(cmd.args.clone().unwrap_or_default());
    all
}

#[test]
fn commands_are_built_from_program_and_arguments() {
    let cmd = Cmd::new("iptables");
    assert_eq!(cmd.program, "iptables");
    assert_eq!(cmd.args, None);
    let cmd = Cmd::new("pfctl").args(&["-F", "all"]);
    assert_eq!(cmd.program, "pfctl");
    assert_eq!(cmd.args, Some(vec!["-F".to_string(), "all".to_string()]));
    let cmd = Cmd::new("x").args(&["a"]).args(&[]);
    assert_eq!(cmd.args, Some(vec![]));
}

#[test]
fn command_results() {
    assert_eq!(output_result(true, Some("out".into()), Some("err".into())).unwrap(), "out");
    let e = output_result(false, Some("out".into()), Some("boom".into())).unwrap_err();
    assert_eq!(e.kind, CmdErrorKind::Failed);
    assert_eq!(e.message, "Failed to start system service, error: boom");
    assert_eq!(output_result(true, None, Some("err".into())).unwrap_err().kind, CmdErrorKind::NotText);
    assert_eq!(output_result(false, Some("x".into()), None).unwrap_err().kind, CmdErrorKind::NotText);

    assert!(exec_result(true, None).is_ok());
    assert!(exec_result(true, Some("warning".into())).is_ok());
    let e = exec_result(false, Some("bad rule".into())).unwrap_err();
    assert_eq!(e.kind, CmdErrorKind::Failed);
    assert_eq!(e.message, "Failed to run command in subprocess, error: bad rule");
    assert_eq!(exec_result(false, None).unwrap_err().kind, CmdErrorKind::NotText);

    assert!(input_result(true).is_ok());
    let e = input_result(false).unwrap_err();
    assert_eq!(e.kind, CmdErrorKind::Failed);
    assert_eq!(e.message, "something went wrong, idk");
}

#[test]
fn kill_results() {
    let pid = Pid::from(321);
    assert!(kill_process(&pid, true, Some(true)).is_ok());
    let e = kill_process(&pid, false, Some(true)).unwrap_err();
    assert_eq!(e.kind, KillErrorKind::NoSuchProcess);
    assert_eq!(e.message, "No such process: pid 321");
    let e = kill_process(&pid, false, None).unwrap_err();
    assert_eq!(e.kind, KillErrorKind::NoSuchProcess);
    let e = kill_process(&pid, true, Some(false)).unwrap_err();
    assert_eq!(e.kind, KillErrorKind::NotDelivered);
    assert_eq!(e.message, "Failed to send out SIGTERM to pid: 321");
    let e = kill_process(&pid, true, None).unwrap_err();
    assert_eq!(e.kind, KillErrorKind::Unsupported);
    assert_eq!(e.message, "SIGTERM not supported on this platform");
}

#[test]
fn waiting_for_the_pid_file() {
    for exists in [true, false] {
        for waited in [0, 5, 1_000_000, u64::MAX] {
            let read = if exists { WaitStep::Read } else { WaitStep::Wait };
            assert_eq!(wait_for_file_and_read(WatchEvent::Created, exists, waited, None), read);
            assert_eq!(wait_for_file_and_read(WatchEvent::Modified, exists, waited, None), read);
            assert_eq!(wait_for_file_and_read(WatchEvent::TimedOut, exists, waited, None), read);
            assert_eq!(
                wait_for_file_and_read(WatchEvent::Other, exists, waited, None),
                WaitStep::Wait
            );
            assert_eq!(
                wait_for_file_and_read(WatchEvent::Failed, exists, waited, None),
                WaitStep::Abort
            );
        }
    }
    assert_eq!(wait_for_file_and_read(WatchEvent::TimedOut, false, 29, Some(30)), WaitStep::Wait);
    assert_eq!(
        wait_for_file_and_read(WatchEvent::TimedOut, false, 30, Some(30)),
        WaitStep::TimedOut
    );
    assert_eq!(wait_for_file_and_read(WatchEvent::Other, true, 31, Some(30)), WaitStep::TimedOut);
    assert_eq!(wait_for_file_and_read(WatchEvent::Created, true, 31, Some(30)), WaitStep::Read);
    assert_eq!(wait_for_file_and_read(WatchEvent::Failed, true, 31, Some(30)), WaitStep::Abort);
    assert_eq!(wait_for_file_and_read(WatchEvent::Other, false, 0, Some(0)), WaitStep::TimedOut);
}

#[test]
fn network_interface_search() {
    let nic = |name: &str, up: bool, loopback: bool, addresses: usize| Nic {
        name: name.to_string(),
        up,
        loopback,
        addresses,
    };
    let all = vec![
        nic("lo", true, true, 1),
        nic("tun0", false, false, 1),
        nic("tun0", true, false, 0),
        nic("tun0", true, false, 2),
        nic("tun0", true, false, 1),
        nic("eth0", true, false, 1),
    ];
    assert_eq!(find_nic(&all, "tun0"), Some(3));
    assert_eq!(find_nic(&all, "eth0"), Some(5));
    assert_eq!(find_nic(&all, "lo"), None);
    assert_eq!(find_nic(&all, "wlan0"), None);
    assert_eq!(find_nic(&vec![], "tun0"), None);
}

#[test]
fn binary_path() {
    assert_eq!(
        absolute_binary_path(Some("target/protonvpn-rs"), "/home/me").unwrap(),
        "/home/me/target/protonvpn-rs"
    );
    assert_eq!(absolute_binary_path(Some("/usr/bin/p"), "/home/me").unwrap(), "/usr/bin/p");
    assert_eq!(absolute_binary_path(None, "/home/me"), None);
}

#[test]
fn systemd_service() {
    let unit = linux::generate_config("/usr/bin/protonvpn-rs");
    assert_eq!(unit.user, "root");
    assert_eq!(unit.group, "root");
    assert_eq!(unit.bin, "/usr/bin/protonvpn-rs");
    assert_eq!(linux::install(None), "/etc/systemd/system/protonvpn-rs.service");
    assert_eq!(linux::install(Some("/tmp/unit")), "/tmp/unit");
    assert_eq!(argv(&linux::start()), vec!["systemctl", "start", "protonvpn-rs.service"]);
    assert_eq!(argv(&linux::stop()), vec!["systemctl", "stop", "protonvpn-rs.service"]);
}

#[test]
fn launchd_agent() {
    let agent = macos::generate_config("/usr/local/bin/protonvpn-rs");
    assert_eq!(agent.bin, "/usr/local/bin/protonvpn-rs");
    assert_eq!(agent.log_path, "/tmp/protonvpn-rs");
    assert_eq!(agent.label, "com.juliamertz.protonvpnrs");
    let plist = "/Users/me/Library/LaunchAgents/com.juliamertz.protonvpnrs.plist";
    assert_eq!(macos::plist_path("/Users/me"), plist);
    assert_eq!(macos::install(None, "/Users/me"), plist);
    assert_eq!(macos::install(Some("/tmp/agent.plist"), "/Users/me"), "/tmp/agent.plist");
    assert_eq!(argv(&macos::start("/Users/me")), vec!["launchctl", "load", "-w", plist]);
    assert_eq!(argv(&macos::stop("/Users/me")), vec!["launchctl", "unload", plist]);
}
