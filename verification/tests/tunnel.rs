use protonvpn_rs::api::types::{Country, EntryIp, Features, LogicalServer, Server};
use protonvpn_rs::cache::{file_path, get_path, is_stale, join_path, CachedObject};
use protonvpn_rs::client::openvpn::{
    connect, create_config, get_update_resolv_path, parse_nic, read_pidfile, readiness_timeout,
    spawn_failure, Config, ConnectErrorKind, Platform, Protocol, Remote,
};
use protonvpn_rs::client::Pid;
use protonvpn_rs::config::Configuration;

fn server(ips: &[[u8; 4]]) -> LogicalServer {
    LogicalServer {
        name: "NL#1".to_string(),
        exit_country: Country::NL,
        tier: 2,
        features: Features::empty(),
        score: 3,
        id: "one".to_string(),
        status: 1,
        servers: ips
            .iter()
            .map(|ip| Server { entry_ip: EntryIp(ip[0], ip[1], ip[2], ip[3]) })
            .collect(),
        load: 1,
    }
}

fn configured() -> Configuration {
    let mut config = Configuration::default();
    config.credentials_path = Some("/etc/protonvpn-rs/credentials".to_string());
    config
}

#[test]
fn default_ports_by_protocol() {
    assert_eq!(Protocol::Udp.default_ports(), vec![5060, 4569, 80, 1194, 51820]);
    assert_eq!(Protocol::Tcp.default_ports(), vec![8443, 443, 7770]);
    assert_eq!(Protocol::default(), Protocol::Udp);
    assert_eq!(Protocol::Udp.to_string(), "udp");
    assert_eq!(Protocol::Tcp.to_string(), "tcp");
    assert_eq!(Protocol::Tcp.as_str(), "tcp");
}

#[test]
fn remotes_of_one_address() {
    let ip = EntryIp(10, 1, 2, 3);
    let remotes = Remote::from_ip(ip, &Protocol::Tcp);
    assert_eq!(
        remotes,
        vec![
            Remote { ip, port: 8443 },
            Remote { ip, port: 443 },
            Remote { ip, port: 7770 }
        ]
    );
    assert_eq!(Remote::from_ip(ip, &Protocol::Udp).len(), 5);
}

#[test]
fn config_template_holds_the_cross_product() {
    let a = EntryIp(10, 0, 0, 1);
    let b = EntryIp(10, 0, 0, 2);
    let template = create_config(
        &server(&[[10, 0, 0, 1], [10, 0, 0, 2]]),
        &Protocol::Tcp,
        &configured(),
        Platform::Other,
        false,
    )
    .unwrap();
    assert_eq!(
        template.remotes,
        vec![
            Remote { ip: a, port: 8443 },
            Remote { ip: a, port: 443 },
            Remote { ip: a, port: 7770 },
            Remote { ip: b, port: 8443 },
            Remote { ip: b, port: 443 },
            Remote { ip: b, port: 7770 },
        ]
    );
    assert_eq!(template.protocol, Protocol::Tcp);
    assert_eq!(template.credentials_path, "/etc/protonvpn-rs/credentials");
    assert_eq!(template.update_resolv_conf, None);

    let template =
        create_config(&server(&[]), &Protocol::Udp, &configured(), Platform::Other, true).unwrap();
    assert!(template.remotes.is_empty());
    let template =
        create_config(&server(&[[1, 1, 1, 1]]), &Protocol::Udp, &configured(), Platform::Other, true)
            .unwrap();
    assert_eq!(template.remotes.len(), 5);
}

#[test]
fn config_template_on_linux_names_the_resolver_helper() {
    let template =
        create_config(&server(&[[1, 1, 1, 1]]), &Protocol::Udp, &configured(), Platform::Linux, true)
            .unwrap();
    assert_eq!(template.update_resolv_conf.as_deref(), Some("/etc/openvpn/update-resolv-conf"));
    let mut config = configured();
    config.update_resolv_conf_path = Some("/opt/helper".to_string());
    assert_eq!(get_update_resolv_path(&config), "/opt/helper");
    assert_eq!(get_update_resolv_path(&configured()), "/etc/openvpn/update-resolv-conf");
    let template =
        create_config(&server(&[[1, 1, 1, 1]]), &Protocol::Udp, &config, Platform::Linux, true)
            .unwrap();
    assert_eq!(template.update_resolv_conf.as_deref(), Some("/opt/helper"));
}

#[test]
fn connect_fails_fast_in_order() {
    let one = server(&[[1, 1, 1, 1]]);
    let none = Configuration::default();
    let e = connect(&one, &Protocol::Udp, &none, Platform::Linux, false, false).unwrap_err();
    assert_eq!(e.kind, ConnectErrorKind::NoCredentialsPath);
    assert_eq!(e.message(), "Credentials path configuration option not set, aborting.");

    let e = connect(&one, &Protocol::Udp, &configured(), Platform::Linux, false, false).unwrap_err();
    assert_eq!(e.kind, ConnectErrorKind::MissingHelper);
    assert_eq!(e.subject, "/etc/openvpn/update-resolv-conf");
    assert_eq!(
        e.message(),
        "File /etc/openvpn/update-resolv-conf not found, this is a OpenVPN dependency."
    );

    let e = connect(&one, &Protocol::Udp, &configured(), Platform::Linux, true, false).unwrap_err();
    assert_eq!(e.kind, ConnectErrorKind::CredentialsNotFound);
    assert_eq!(e.message(), "Credentials path does not exist, aborting.");

    let e = connect(&one, &Protocol::Udp, &configured(), Platform::Other, false, false).unwrap_err();
    assert_eq!(e.kind, ConnectErrorKind::CredentialsNotFound);
}

#[test]
fn connect_plans_the_launch() {
    let one = server(&[[1, 1, 1, 1]]);
    let plan = connect(&one, &Protocol::Udp, &configured(), Platform::Linux, true, true).unwrap();
    assert_eq!(plan.config_path, "/etc/protonvpn-rs/configuration.ovpn");
    assert_eq!(plan.pid_path, "/etc/protonvpn-rs/pid");
    assert_eq!(plan.command.program, "openvpn");
    assert_eq!(
        plan.command.args,
        Some(
            vec![
                "--daemon",
                "--writepid",
                "/etc/protonvpn-rs/pid",
                "--config",
                "/etc/protonvpn-rs/configuration.ovpn"
            ]
            .into_iter()
            .map(String::from)
            .collect()
        )
    );
    assert_eq!(plan.template.remotes.len(), 5);
    assert_eq!(plan.template.remotes[3], Remote { ip: EntryIp(1, 1, 1, 1), port: 1194 });
}

#[test]
fn spawn_failures_are_told_apart() {
    let e = spawn_failure(true, "No such file or directory");
    assert_eq!(e.kind, ConnectErrorKind::BinaryNotFound);
    assert_eq!(e.message(), "`openvpn` was not found, check your PATH.");
    let e = spawn_failure(false, "Permission denied (os error 13)");
    assert_eq!(e.kind, ConnectErrorKind::SpawnFailed);
    assert_eq!(e.message(), "error connecting with openvpn: Permission denied (os error 13)");
}

#[test]
fn pid_file_content_is_read() {
    assert_eq!(read_pidfile("4242\n".to_string()).unwrap().as_u32(), 4242);
    let e = read_pidfile("not a pid".to_string()).unwrap_err();
    assert_eq!(e.kind, ConnectErrorKind::InvalidPid);
    assert_eq!(e.subject, "not a pid");
    assert_eq!(e.message(), "invalid process id: not a pid");
}

#[test]
fn config_text_is_kept() {
    assert_eq!(Config::new("client\n").to_string(), "client\n");
    assert_eq!(Config::from("remote 1.2.3.4 80".to_string()).to_string(), "remote 1.2.3.4 80");
    assert_eq!(Config::new("").to_string(), "");
}

#[test]
fn cache_paths() {
    assert_eq!(get_path(), "/etc/protonvpn-rs");
    assert_eq!(file_path::<Config>(), "/etc/protonvpn-rs/configuration.ovpn");
    assert_eq!(file_path::<Pid>(), "/etc/protonvpn-rs/pid");
    assert_eq!(
        file_path::<protonvpn_rs::api::LogicalServers>(),
        "/etc/protonvpn-rs/servers.ron"
    );
    assert_eq!(<Pid as CachedObject>::filename(), "pid");
    assert_eq!(join_path("/etc", "protonvpn-rs"), "/etc/protonvpn-rs");
    assert_eq!(join_path("/etc/", "x"), "/etc/x");
    assert_eq!(join_path("/etc", "/abs"), "/abs");
    assert_eq!(join_path("/etc", ""), "/etc/");
    assert_eq!(join_path("", "x"), "x");
    assert_eq!(join_path("/", "x"), "/x");
}

#[test]
fn cache_staleness() {
    let day = 86400u64;
    assert!(!is_stale(0, 0, 3));
    assert!(!is_stale(3 * day, 0, 3));
    assert!(is_stale(3 * day, 1, 3));
    assert!(is_stale(3 * day + 1, 0, 3));
    assert!(!is_stale(3 * day - 1, 999_999_999, 3));
    assert!(is_stale(0, 1, 0));
    assert!(!is_stale(0, 0, 0));
    assert!(!is_stale(u64::MAX, 999_999_999, u64::MAX));
    assert!(!is_stale(u64::MAX, 0, 213503982334602));
    assert!(is_stale(u64::MAX, 0, 213503982334601));
}

#[test]
fn readiness_timeout_names_the_pid_file() {
    let e = readiness_timeout();
    assert_eq!(e.kind, ConnectErrorKind::ReadinessTimeout);
    assert_eq!(e.subject, "/etc/protonvpn-rs/pid");
    assert_eq!(e.message(), "the tunnel did not come up in time");
}

#[test]
fn tunnel_device_is_read_from_the_log() {
    let log = "2024-01-01 12:00:00 OpenVPN 2.6.8\n\
               2024-01-01 12:00:01 TUN/TAP device tun0 opened\n\
               2024-01-01 12:00:02 Initialization Sequence Completed\n";
    assert_eq!(parse_nic(log).as_deref(), Some("tun0"));
    let twice = "TUN/TAP device tun0 opened\nnoise\nx TUN/TAP device tun7 opened\n";
    assert_eq!(parse_nic(twice).as_deref(), Some("tun7"));
    assert_eq!(parse_nic("a TUN/TAP device foo TUN/TAP device bar baz").as_deref(), Some("foo"));
    assert_eq!(parse_nic(""), None);
    assert_eq!(parse_nic("TUN/TAP device"), None);
    assert_eq!(parse_nic("TUN/TAP\ndevice tun0"), None);
    assert_eq!(parse_nic("TUN/TAP device "), Some(String::new()));
    assert_eq!(parse_nic("tun/tap device tun0 opened"), None);
}
