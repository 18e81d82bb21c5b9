//! What the daemon knows about OpenVPN: transport protocols, their default
//! ports and the endpoints of a tunnel configuration.

use crate::api::types::{EntryIp, LogicalServer};
use crate::cache::{cache_dir, file_path, joined, CachedObject};
use crate::client::Pid;
use crate::config::Configuration;
use crate::text::{
    eq_ignore_ascii_case, same_text, same_text_ignore_ascii_case, split, split_text, views,
};
use crate::utils::{Cmd, CmdView};
use vstd::prelude::*;
use vstd::std_specs::convert::FromSpecImpl;

verus! {

/// Transport protocol of the tunnel.
#[derive(Debug, Clone, Copy, PartialEq, Eq, Structural)]
pub enum Protocol {
    Udp,
    Tcp,
}

impl Default for Protocol {
    fn default() -> (protocol: Protocol)
        ensures
            protocol == Protocol::Udp,
    {
        Protocol::Udp
    }
}

impl Protocol {
    /// The ports that are tried for this protocol, in order.
    pub open spec fn ports(self) -> Seq<u32> {
        match self {
            Protocol::Udp => seq![5060u32, 4569u32, 80u32, 1194u32, 51820u32],
            Protocol::Tcp => seq![8443u32, 443u32, 7770u32],
        }
    }

    /// The lower-case name of the protocol.
    pub open spec fn name(self) -> Seq<char> {
        match self {
            Protocol::Udp => "udp"@,
            Protocol::Tcp => "tcp"@,
        }
    }

    /// The protocol that a text names. With `ignore_case` the case of ASCII
    /// letters does not matter.
    pub open spec fn named(text: Seq<char>, ignore_case: bool) -> Option<Protocol> {
        if Self::is_name(Protocol::Udp, text, ignore_case) {
            Some(Protocol::Udp)
        } else if Self::is_name(Protocol::Tcp, text, ignore_case) {
            Some(Protocol::Tcp)
        } else {
            None
        }
    }

    pub open spec fn is_name(self, text: Seq<char>, ignore_case: bool) -> bool {
        if ignore_case {
            eq_ignore_ascii_case(self.name(), text)
        } else {
            self.name() == text
        }
    }

    pub fn default_ports(&self) -> (ports: Vec<u32>)
        ensures
            ports@ == self.ports(),
    {
        let ports = match self {
            Protocol::Udp => vec![5060u32, 4569u32, 80u32, 1194u32, 51820u32],
            Protocol::Tcp => vec![8443u32, 443u32, 7770u32],
        };
        assert(ports@ =~= self.ports());
        ports
    }

    /// The lower-case name of the protocol.
    pub fn as_str(&self) -> (name: &'static str)
        ensures
            name@ == self.name(),
    {
        match self {
            Protocol::Udp => "udp",
            Protocol::Tcp => "tcp",
        }
    }

    /// The lower-case name of the protocol, owned.
    pub fn to_string(&self) -> (name: String)
        ensures
            name@ == self.name(),
    {
        self.as_str().to_owned()
    }

    fn matches(&self, input: &str, ignore_case: bool) -> (r: bool)
        ensures
            r == self.is_name(input@, ignore_case),
    {
        if ignore_case {
            same_text_ignore_ascii_case(self.as_str(), input)
        } else {
            same_text(self.as_str(), input)
        }
    }

    /// Reads a protocol name. The error is a description of the failure.
    pub fn from_str(input: &str, ignore_case: bool) -> (r: Result<Protocol, String>)
        ensures
            match r {
                Ok(protocol) => Self::named(input@, ignore_case) == Some(protocol),
                Err(reason) => Self::named(input@, ignore_case) is None && reason@
                    == "invalid variant: "@ + input@,
            },
    {
        if Protocol::Udp.matches(input, ignore_case) {
            Ok(Protocol::Udp)
        } else if Protocol::Tcp.matches(input, ignore_case) {
            Ok(Protocol::Tcp)
        } else {
            let mut reason = "invalid variant: ".to_owned();
            reason.append(input);
            Err(reason)
        }
    }
}

/// A rendered tunnel configuration.
#[derive(Debug)]
pub struct Config(String);

impl View for Config {
    type V = Seq<char>;

    closed spec fn view(&self) -> Seq<char> {
        self.0@
    }
}

impl Config {
    /// The configuration with the given text.
    pub fn new(value: &str) -> (config: Config)
        ensures
            config@ == value@,
    {
        Config(value.to_owned())
    }

    /// The text of the configuration.
    pub fn to_string(&self) -> (text: String)
        ensures
            text@ == self@,
    {
        self.0.clone()
    }
}

impl Config {
    /// The configuration that is made from a text holds that text.
    pub proof fn lemma_from(value: String)
        ensures
            <Config as vstd::std_specs::convert::FromSpec<String>>::from_spec(value)@ == value@,
    {
    }
}

impl From<String> for Config {
    fn from(value: String) -> (config: Config) {
        Config(value)
    }
}

impl FromSpecImpl<String> for Config {
    open spec fn obeys_from_spec() -> bool {
        true
    }

    closed spec fn from_spec(value: String) -> Config {
        Config(value)
    }
}

impl CachedObject for Config {
    open spec fn spec_filename() -> Seq<char> {
        "configuration.ovpn"@
    }

    fn filename() -> (name: &'static str) {
        "configuration.ovpn"
    }
}

/// One endpoint of the tunnel: an entry address and a port.
#[derive(Debug, Clone, Copy, PartialEq, Eq, Structural)]
pub struct Remote {
    pub ip: EntryIp,
    pub port: u32,
}

/// The endpoints of one entry address: one per port, in order.
pub open spec fn endpoints_of(ip: EntryIp, ports: Seq<u32>) -> Seq<Remote> {
    Seq::new(ports.len(), |i: int| Remote { ip, port: ports[i] })
}

/// The endpoints of all the entry addresses, address by address: every
/// address with every port.
pub open spec fn endpoints(ips: Seq<EntryIp>, ports: Seq<u32>) -> Seq<Remote>
    decreases ips.len(),
{
    if ips.len() == 0 {
        Seq::<Remote>::empty()
    } else {
        endpoints(ips.drop_last(), ports) + endpoints_of(ips.last(), ports)
    }
}

/// There are as many endpoints as there are pairs of an address and a
/// port.
pub proof fn lemma_endpoints_len(ips: Seq<EntryIp>, ports: Seq<u32>)
    ensures
        endpoints(ips, ports).len() == ips.len() * ports.len(),
    decreases ips.len(),
{
    if ips.len() == 0 {
        assert(ips.len() * ports.len() == 0) by (nonlinear_arith)
            requires
                ips.len() == 0,
        ;
    } else {
        let init = ips.drop_last();
        lemma_endpoints_len(init, ports);
        assert(ips.len() * ports.len() == init.len() * ports.len() + ports.len())
            by (nonlinear_arith)
            requires
                ips.len() == init.len() + 1,
        ;
    }
}

/// The endpoints are the full cross product: the pair of the `i`-th address
/// and the `j`-th port stands at `i * ports.len() + j`.
pub proof fn lemma_endpoint_at(ips: Seq<EntryIp>, ports: Seq<u32>, i: int, j: int)
    requires
        0 <= i < ips.len(),
        0 <= j < ports.len(),
    ensures
        0 <= i * ports.len() + j < endpoints(ips, ports).len(),
        endpoints(ips, ports)[i * ports.len() + j] == (Remote { ip: ips[i], port: ports[j] }),
    decreases ips.len(),
{
    let m = ports.len() as int;
    let init = ips.drop_last();
    let n = init.len() as int;
    lemma_endpoints_len(init, ports);
    lemma_endpoints_len(ips, ports);
    assert(ips.len() * ports.len() == n * m + m) by (nonlinear_arith)
        requires
            ips.len() == n + 1,
            ports.len() == m,
    ;
    if i < n {
        lemma_endpoint_at(init, ports, i, j);
        assert(init[i] == ips[i]);
    } else {
        assert(i * m + j == n * m + j && n * m >= 0) by (nonlinear_arith)
            requires
                i == n,
                n >= 0,
                m >= 0,
        ;
        assert(endpoints_of(ips.last(), ports)[j] == (Remote { ip: ips[i], port: ports[j] }));
    }
}

impl Remote {
    /// The endpoints of one entry address: one per default port of the
    /// protocol, in order.
    pub fn from_ip(ip: EntryIp, protocol: &Protocol) -> (remotes: Vec<Remote>)
        ensures
            remotes@ == endpoints_of(ip, protocol.ports()),
    {
        let ports = protocol.default_ports();
        let mut remotes: Vec<Remote> = Vec::new();
        let mut i: usize = 0;
        while i < ports.len()
            invariant
                i <= ports.len(),
                ports@ == protocol.ports(),
                remotes@ == endpoints_of(ip, ports@).take(i as int),
            decreases ports.len() - i,
        {
            remotes.push(Remote { ip, port: ports[i] });
            assert(remotes@ =~= endpoints_of(ip, ports@).take(i + 1));
            i += 1;
        }
        assert(remotes@ =~= endpoints_of(ip, ports@));
        remotes
    }
}

/// Where the daemon runs, as far as the tunnel configuration depends on it.
#[derive(Debug, Clone, Copy, PartialEq, Eq, Structural)]
pub enum Platform {
    /// A platform whose resolver is updated by a helper script.
    Linux,
    /// A platform without such a helper.
    Other,
}

/// What goes into the tunnel configuration.
#[derive(Debug)]
pub struct ConfigTemplate {
    pub remotes: Vec<Remote>,
    pub protocol: Protocol,
    pub credentials_path: String,
    pub update_resolv_conf: Option<String>,
}

pub struct ConfigTemplateView {
    pub remotes: Seq<Remote>,
    pub protocol: Protocol,
    pub credentials_path: Seq<char>,
    pub update_resolv_conf: Option<Seq<char>>,
}

impl View for ConfigTemplate {
    type V = ConfigTemplateView;

    open spec fn view(&self) -> ConfigTemplateView {
        ConfigTemplateView {
            remotes: self.remotes@,
            protocol: self.protocol,
            credentials_path: self.credentials_path@,
            update_resolv_conf: match self.update_resolv_conf {
                Some(path) => Some(path@),
                None => None,
            },
        }
    }
}

/// Why the tunnel was not started.
#[derive(Debug, Clone, Copy, PartialEq, Eq, Structural)]
pub enum ConnectErrorKind {
    /// No credentials file is configured.
    NoCredentialsPath,
    /// The helper that updates the resolver is not where it should be.
    MissingHelper,
    /// The configured credentials file does not exist.
    CredentialsNotFound,
    /// The tunnel program is not on the search path.
    BinaryNotFound,
    /// The tunnel program could not be started for another reason.
    SpawnFailed,
    /// What the tunnel program wrote is no process identifier.
    InvalidPid,
    /// The tunnel program did not write its process identifier in time.
    ReadinessTimeout,
}

/// A tunnel that was not started.
#[derive(Debug)]
pub struct ConnectError {
    pub kind: ConnectErrorKind,
    /// The path, the text or the report that the failure is about; empty
    /// where there is none.
    pub subject: String,
}

impl ConnectError {
    /// What the operator is told.
    pub open spec fn text(kind: ConnectErrorKind, subject: Seq<char>) -> Seq<char> {
        match kind {
            ConnectErrorKind::NoCredentialsPath => "Credentials path configuration option not set, aborting."@,
            ConnectErrorKind::MissingHelper => "File "@ + subject
                + " not found, this is a OpenVPN dependency."@,
            ConnectErrorKind::CredentialsNotFound => "Credentials path does not exist, aborting."@,
            ConnectErrorKind::BinaryNotFound => "`openvpn` was not found, check your PATH."@,
            ConnectErrorKind::SpawnFailed => "error connecting with openvpn: "@ + subject,
            ConnectErrorKind::InvalidPid => "invalid process id: "@ + subject,
            ConnectErrorKind::ReadinessTimeout => "the tunnel did not come up in time"@,
        }
    }

    /// What the operator is told.
    pub fn message(&self) -> (text: String)
        ensures
            text@ == Self::text(self.kind, self.subject@),
    {
        match self.kind {
            ConnectErrorKind::NoCredentialsPath => "Credentials path configuration option not set, aborting.".to_owned(),
            ConnectErrorKind::MissingHelper => {
                let mut text = "File ".to_owned();
                text.append(self.subject.as_str());
                text.append(" not found, this is a OpenVPN dependency.");
                text
            },
            ConnectErrorKind::CredentialsNotFound => "Credentials path does not exist, aborting.".to_owned(),
            ConnectErrorKind::BinaryNotFound => "`openvpn` was not found, check your PATH.".to_owned(),
            ConnectErrorKind::SpawnFailed => {
                let mut text = "error connecting with openvpn: ".to_owned();
                text.append(self.subject.as_str());
                text
            },
            ConnectErrorKind::InvalidPid => {
                let mut text = "invalid process id: ".to_owned();
                text.append(self.subject.as_str());
                text
            },
            ConnectErrorKind::ReadinessTimeout => "the tunnel did not come up in time".to_owned(),
        }
    }
}

fn refuse(kind: ConnectErrorKind, subject: &str) -> (e: ConnectError)
    ensures
        e.kind == kind,
        e.subject@ == subject@,
{
    ConnectError { kind, subject: subject.to_owned() }
}

/// Where the helper that updates the resolver is looked for.
pub open spec fn helper_path(configured: Option<String>) -> Seq<char> {
    match configured {
        Some(path) => path@,
        None => "/etc/openvpn/update-resolv-conf"@,
    }
}

/// Where the helper that updates the resolver is looked for: the configured
/// place, else the usual one.
pub fn get_update_resolv_path(config: &Configuration) -> (path: String)
    ensures
        path@ == helper_path(config.update_resolv_conf_path),
{
    match &config.update_resolv_conf_path {
        Some(path) => path.clone(),
        None => "/etc/openvpn/update-resolv-conf".to_owned(),
    }
}

/// What goes into the tunnel configuration for `server` over `protocol`,
/// or why there is none.
pub open spec fn template_for(
    ips: Seq<EntryIp>,
    protocol: Protocol,
    config: Configuration,
    platform: Platform,
    helper_exists: bool,
) -> Result<ConfigTemplateView, ConnectErrorKind> {
    match config.credentials_path {
        None => Err(ConnectErrorKind::NoCredentialsPath),
        Some(credentials) => if platform == Platform::Linux && !helper_exists {
            Err(ConnectErrorKind::MissingHelper)
        } else {
            Ok(
                ConfigTemplateView {
                    remotes: endpoints(ips, protocol.ports()),
                    protocol,
                    credentials_path: credentials@,
                    update_resolv_conf: if platform == Platform::Linux {
                        Some(helper_path(config.update_resolv_conf_path))
                    } else {
                        None
                    },
                },
            )
        },
    }
}

/// Puts together what goes into the tunnel configuration: every entry
/// address of the server with every default port of the protocol, the
/// credentials file and, on Linux, the resolver helper.
///
/// `helper_exists` says whether the helper is where
/// [`get_update_resolv_path`] looks for it; it is only read on Linux.
pub fn create_config(
    server: &LogicalServer,
    protocol: &Protocol,
    config: &Configuration,
    platform: Platform,
    helper_exists: bool,
) -> (r: Result<ConfigTemplate, ConnectError>)
    ensures
        match r {
            Ok(template) => template_for(
                server@.entry_ips,
                *protocol,
                *config,
                platform,
                helper_exists,
            ) == Ok::<ConfigTemplateView, ConnectErrorKind>(template@),
            Err(e) => template_for(server@.entry_ips, *protocol, *config, platform, helper_exists)
                == Err::<ConfigTemplateView, ConnectErrorKind>(e.kind) && e.subject@ == if e.kind
                == ConnectErrorKind::MissingHelper {
                helper_path(config.update_resolv_conf_path)
            } else {
                Seq::<char>::empty()
            },
        },
{
    let ips = server.entry_ips();
    let mut remotes: Vec<Remote> = Vec::new();
    let mut i: usize = 0;
    assert(ips@.take(0) =~= Seq::<EntryIp>::empty());
    while i < ips.len()
        invariant
            i <= ips.len(),
            remotes@ == endpoints(ips@.take(i as int), protocol.ports()),
        decreases ips.len() - i,
    {
        let mut more = Remote::from_ip(ips[i], protocol);
        proof {
            assert(ips@.take(i + 1).drop_last() =~= ips@.take(i as int));
            assert(ips@.take(i + 1).last() == ips@[i as int]);
        }
        remotes.append(&mut more);
        i += 1;
    }
    assert(ips@.take(i as int) =~= ips@);
    let credentials_path = match &config.credentials_path {
        Some(path) => path.clone(),
        None => {
            proof {
                reveal_strlit("");
            }
            return Err(refuse(ConnectErrorKind::NoCredentialsPath, ""));
        },
    };
    let update_resolv_conf = match platform {
        Platform::Linux => {
            let helper = get_update_resolv_path(config);
            if !helper_exists {
                return Err(ConnectError { kind: ConnectErrorKind::MissingHelper, subject: helper });
            }
            Some(helper)
        },
        Platform::Other => None,
    };
    Ok(ConfigTemplate { remotes, protocol: *protocol, credentials_path, update_resolv_conf })
}

/// Everything that is needed to start the tunnel.
#[derive(Debug)]
pub struct LaunchPlan {
    /// What goes into the configuration file.
    pub template: ConfigTemplate,
    /// Where the rendered configuration is written.
    pub config_path: String,
    /// The call of the tunnel program.
    pub command: Cmd,
    /// Where the tunnel program writes its process identifier.
    pub pid_path: String,
}

/// The path of the configuration file.
pub open spec fn config_file() -> Seq<char> {
    joined(cache_dir(), "configuration.ovpn"@)
}

/// The path of the file with the tunnel's process identifier.
pub open spec fn pid_file() -> Seq<char> {
    joined(cache_dir(), "pid"@)
}

/// The call of the tunnel program: as a daemon that writes its process
/// identifier to the pid file and reads the configuration file.
pub open spec fn launch_command() -> CmdView {
    CmdView::of(
        "openvpn"@,
        seq!["--daemon"@, "--writepid"@, pid_file(), "--config"@, config_file()],
    )
}

/// Whether the tunnel can be started, and with what.
pub open spec fn launch_check(
    ips: Seq<EntryIp>,
    protocol: Protocol,
    config: Configuration,
    platform: Platform,
    helper_exists: bool,
    credentials_exist: bool,
) -> Result<ConfigTemplateView, ConnectErrorKind> {
    match template_for(ips, protocol, config, platform, helper_exists) {
        Err(kind) => Err(kind),
        Ok(template) => if credentials_exist {
            Ok(template)
        } else {
            Err(ConnectErrorKind::CredentialsNotFound)
        },
    }
}

/// Decides whether the tunnel to `server` can be started and plans the
/// start. Nothing is written and nothing is run before every check has
/// passed.
///
/// `helper_exists` is as for [`create_config`]; `credentials_exist` says
/// whether the configured credentials file exists.
pub fn connect(
    server: &LogicalServer,
    protocol: &Protocol,
    config: &Configuration,
    platform: Platform,
    helper_exists: bool,
    credentials_exist: bool,
) -> (r: Result<LaunchPlan, ConnectError>)
    ensures
        match r {
            Ok(plan) => {
                &&& launch_check(
                    server@.entry_ips,
                    *protocol,
                    *config,
                    platform,
                    helper_exists,
                    credentials_exist,
                ) == Ok::<ConfigTemplateView, ConnectErrorKind>(plan.template@)
                &&& plan.config_path@ == config_file()
                &&& plan.pid_path@ == pid_file()
                &&& plan.command@ == launch_command()
            },
            Err(e) => launch_check(
                server@.entry_ips,
                *protocol,
                *config,
                platform,
                helper_exists,
                credentials_exist,
            ) == Err::<ConfigTemplateView, ConnectErrorKind>(e.kind),
        },
{
    let template = match create_config(server, protocol, config, platform, helper_exists) {
        Ok(template) => template,
        Err(e) => {
            return Err(e);
        },
    };
    if !credentials_exist {
        return Err(
            ConnectError {
                kind: ConnectErrorKind::CredentialsNotFound,
                subject: template.credentials_path,
            },
        );
    }
    let config_path = file_path::<Config>();
    let pid_path = file_path::<Pid>();
    let args = ["--daemon", "--writepid", pid_path.as_str(), "--config", config_path.as_str()];
    let command = Cmd::new("openvpn").args(&args);
    assert(views(args@) =~= seq![
        "--daemon"@,
        "--writepid"@,
        pid_file(),
        "--config"@,
        config_file(),
    ]);
    Ok(LaunchPlan { template, config_path, command, pid_path })
}

/// The failure to start the tunnel program. `not_found` says that the
/// program is not on the search path; any other failure is passed on with
/// its report as it is.
pub fn spawn_failure(not_found: bool, report: &str) -> (e: ConnectError)
    ensures
        e.kind == if not_found {
            ConnectErrorKind::BinaryNotFound
        } else {
            ConnectErrorKind::SpawnFailed
        },
        e.subject@ == report@,
{
    if not_found {
        refuse(ConnectErrorKind::BinaryNotFound, report)
    } else {
        refuse(ConnectErrorKind::SpawnFailed, report)
    }
}

/// The failure to see the tunnel come up before the deadline.
pub fn readiness_timeout() -> (e: ConnectError)
    ensures
        e.kind == ConnectErrorKind::ReadinessTimeout,
        e.subject@ == pid_file(),
{
    ConnectError { kind: ConnectErrorKind::ReadinessTimeout, subject: file_path::<Pid>() }
}

/// Reads the process identifier that the tunnel program wrote.
pub fn read_pidfile(content: String) -> (r: Result<Pid, ConnectError>)
    ensures
        match r {
            Ok(pid) => Pid::parse(content@) == Some(pid@),
            Err(e) => Pid::parse(content@) is None && e.kind == ConnectErrorKind::InvalidPid
                && e.subject@ == content@,
        },
{
    match Pid::try_from(content) {
        Ok(pid) => {
            proof {
                pid.lemma_view();
            }
            Ok(pid)
        },
        Err(e) => Err(ConnectError { kind: ConnectErrorKind::InvalidPid, subject: e.text }),
    }
}

/// Whether the words from position `k` on announce a tunnel device: the
/// words `TUN/TAP` and `device`, then the name.
pub open spec fn announces_at(words: Seq<Seq<char>>, k: int) -> bool {
    0 <= k && k + 2 < words.len() && words[k] == "TUN/TAP"@ && words[k + 1] == "device"@
}

/// The device that the words announce first, looking from position `k` on.
pub open spec fn device_from(words: Seq<Seq<char>>, k: int) -> Option<Seq<char>>
    decreases words.len() - k,
{
    if k < 0 || k + 2 >= words.len() {
        None
    } else if announces_at(words, k) {
        Some(words[k + 2])
    } else {
        device_from(words, k + 1)
    }
}

/// The device that a line of the tunnel's log announces, if it does.
pub open spec fn device_of_line(line: Seq<char>) -> Option<Seq<char>> {
    device_from(split(line, ' '), 0)
}

/// The device that the last announcing line announces.
pub open spec fn device_of_lines(lines: Seq<Seq<char>>) -> Option<Seq<char>>
    decreases lines.len(),
{
    if lines.len() == 0 {
        None
    } else {
        match device_of_line(lines.last()) {
            Some(device) => Some(device),
            None => device_of_lines(lines.drop_last()),
        }
    }
}

fn line_device<'a>(line: &'a str) -> (device: Option<&'a str>)
    ensures
        match device {
            Some(name) => device_of_line(line@) == Some(name@),
            None => device_of_line(line@) is None,
        },
{
    let words = split_text(line, ' ');
    let ghost all = split(line@, ' ');
    let mut k: usize = 0;
    assert(views(words@).len() == words@.len());
    while words.len() >= 3 && k <= words.len() - 3
        invariant
            all == split(line@, ' '),
            views(words@) == all,
            words@.len() == all.len(),
            device_from(all, 0) == device_from(all, k as int),
        decreases words.len() - k,
    {
        assert(views(words@)[k as int] == words@[k as int]@);
        assert(views(words@)[k + 1] == words@[k + 1]@);
        assert(views(words@)[k + 2] == words@[k + 2]@);
        if same_text(words[k], "TUN/TAP") && same_text(words[k + 1], "device") {
            assert(announces_at(all, k as int));
            assert(device_from(all, k as int) == Some(all[k + 2]));
            return Some(words[k + 2]);
        }
        assert(!announces_at(all, k as int));
        k += 1;
    }
    None
}

/// The network device of the tunnel, as the tunnel's log names it: the
/// name after the words `TUN/TAP device` in the last line that has them.
pub fn parse_nic(log: &str) -> (device: Option<String>)
    ensures
        match device {
            Some(name) => device_of_lines(split(log@, '\n')) == Some(name@),
            None => device_of_lines(split(log@, '\n')) is None,
        },
{
    let lines = split_text(log, '\n');
    let ghost all = split(log@, '\n');
    let mut i: usize = lines.len();
    assert(views(lines@).len() == lines@.len());
    assert(all.take(i as int) =~= all);
    while i > 0
        invariant
            i <= lines.len(),
            all == split(log@, '\n'),
            views(lines@) == all,
            lines@.len() == all.len(),
            device_of_lines(all) == device_of_lines(all.take(i as int)),
        decreases i,
    {
        let ghost head = all.take(i as int);
        assert(head.last() == views(lines@)[i - 1]);
        assert(views(lines@)[i - 1] == lines@[i - 1]@);
        assert(head.drop_last() =~= all.take(i - 1));
        match line_device(lines[i - 1]) {
            Some(name) => {
                assert(device_of_line(head.last()) == Some(name@));
                assert(device_of_lines(head) == Some(name@));
                return Some(name.to_owned());
            },
            None => {
                assert(device_of_line(head.last()) is None);
            },
        }
        i -= 1;
    }
    None
}

} // verus!
