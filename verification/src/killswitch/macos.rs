//! The pf backend of the killswitch.
//!
//! All the rules are written to one file, which `pfctl` then loads before
//! the filter is switched on. Disabling flushes the rules.

use crate::api::types::EntryIp;
use crate::cache::{cache_dir, get_path, join_path, joined};
use crate::client::openvpn::Protocol;
use crate::killswitch::linux::backup_file;
use crate::killswitch::{leaves_alone, step_views, FirewallStep, FirewallStepView, Intent};
use crate::text::{
    decimal, join, join_text, lemma_join_with_char, push_decimal, string_views, views,
};
use crate::utils::{Cmd, CmdView};
use vstd::prelude::*;

verus! {

/// The pf packet filter.
pub struct Pf;

/// The path of the file that holds the rules.
pub open spec fn config_file() -> Seq<char> {
    joined(cache_dir(), "pf.conf"@)
}

/// The rules that do not depend on the protocol: block everything by
/// default, allow the loopback, allow the tunnel device.
pub open spec fn base_rules(device: Seq<char>) -> Seq<Seq<char>> {
    seq!["block drop all"@, "pass on lo0"@, "pass on "@ + device]
}

/// The rule that lets traffic out to `port` of the entry address `ip`.
pub open spec fn pass_rule(protocol: Protocol, ip: EntryIp, port: u32) -> Seq<char> {
    "pass out proto "@ + protocol.name() + " from any to "@ + ip.dotted() + " port "@ + decimal(
        port as nat,
    )
}

/// The rules for one port: one per entry address, in order.
pub open spec fn address_rules(protocol: Protocol, port: u32, ips: Seq<EntryIp>) -> Seq<Seq<char>> {
    Seq::new(ips.len(), |i: int| pass_rule(protocol, ips[i], port))
}

/// The rules for all the ports, port by port.
pub open spec fn pass_rules(protocol: Protocol, ports: Seq<u32>, ips: Seq<EntryIp>) -> Seq<
    Seq<char>,
>
    decreases ports.len(),
{
    if ports.len() == 0 {
        Seq::<Seq<char>>::empty()
    } else {
        pass_rules(protocol, ports.drop_last(), ips) + address_rules(protocol, ports.last(), ips)
    }
}

/// All the rules of the killswitch, in order: the base rules, one rule for
/// every default port of the protocol and every entry address of the active
/// server, then the operator's own rules as they are.
pub open spec fn rules(
    device: Seq<char>,
    protocol: Protocol,
    ips: Seq<EntryIp>,
    custom: Seq<Seq<char>>,
) -> Seq<Seq<char>> {
    base_rules(device) + pass_rules(protocol, protocol.ports(), ips) + custom
}

/// The steps that put the given rules in force: write them to the rule
/// file, one per line, load the file, switch the filter on.
pub open spec fn apply_steps(rules: Seq<Seq<char>>) -> Seq<FirewallStepView> {
    seq![
        FirewallStepView::Write { path: config_file(), contents: join(rules, '\n') },
        FirewallStepView::Run(CmdView::of("pfctl"@, seq!["-f"@, config_file()])),
        FirewallStepView::Run(CmdView::of("pfctl"@, seq!["-E"@])),
    ]
}

/// The steps that take the killswitch out of force: flush all rules.
pub open spec fn disable_steps() -> Seq<FirewallStepView> {
    seq![FirewallStepView::Run(CmdView::of("pfctl"@, seq!["-F"@, "all"@]))]
}

fn pass_text(protocol: &Protocol, ip: &EntryIp, port: u32) -> (rule: String)
    ensures
        rule@ == pass_rule(*protocol, *ip, port),
{
    let mut rule = "pass out proto ".to_owned();
    rule.append(protocol.as_str());
    rule.append(" from any to ");
    rule.append(ip.to_string().as_str());
    rule.append(" port ");
    push_decimal(&mut rule, port);
    rule
}

/// Puts the killswitch in force for `protocol` and the entry addresses of
/// the active server.
///
/// `device` is the network device of the tunnel, `custom_rules` are the
/// operator's own rule lines.
pub fn enable(
    protocol: &Protocol,
    entry_ips: &Vec<EntryIp>,
    device: &str,
    custom_rules: &Option<Vec<String>>,
) -> (steps: Vec<FirewallStep>)
    ensures
        step_views(steps@) == apply_steps(
            rules(
                device@,
                *protocol,
                entry_ips@,
                match custom_rules {
                    Some(custom) => string_views(custom@),
                    None => Seq::<Seq<char>>::empty(),
                },
            ),
        ),
{
    Pf::apply_rules(Pf::rules(protocol, entry_ips, device, custom_rules))
}

/// Takes the killswitch out of force.
pub fn disable() -> (steps: Vec<FirewallStep>)
    ensures
        step_views(steps@) == disable_steps(),
{
    let steps = vec![Pf::restore()];
    assert(step_views(steps@) =~= disable_steps());
    steps
}

impl Pf {
    /// The path of the file that holds the rules.
    pub fn config_path() -> (path: String)
        ensures
            path@ == config_file(),
    {
        join_path(get_path().as_str(), "pf.conf")
    }

    /// The step that flushes all rules.
    pub fn restore() -> (step: FirewallStep)
        ensures
            seq![step@] == disable_steps(),
    {
        let args = ["-F", "all"];
        let command = Cmd::new("pfctl").args(&args);
        assert(views(args@) =~= seq!["-F"@, "all"@]);
        let step = FirewallStep::Run(command);
        assert(seq![step@] =~= disable_steps());
        step
    }

    /// All the rules of the killswitch, in order.
    pub fn rules(
        protocol: &Protocol,
        entry_ips: &Vec<EntryIp>,
        device: &str,
        custom_rules: &Option<Vec<String>>,
    ) -> (all: Vec<String>)
        ensures
            string_views(all@) == rules(
                device@,
                *protocol,
                entry_ips@,
                match custom_rules {
                    Some(custom) => string_views(custom@),
                    None => Seq::<Seq<char>>::empty(),
                },
            ),
    {
        let mut all: Vec<String> = Vec::new();
        all.push("block drop all".to_owned());
        all.push("pass on lo0".to_owned());
        let mut tunnel = "pass on ".to_owned();
        tunnel.append(device);
        all.push(tunnel);
        assert(string_views(all@) =~= base_rules(device@));
        let ports = protocol.default_ports();
        let mut i: usize = 0;
        assert(ports@.take(0) =~= Seq::<u32>::empty());
        while i < ports.len()
            invariant
                i <= ports.len(),
                ports@ == protocol.ports(),
                string_views(all@) == base_rules(device@) + pass_rules(
                    *protocol,
                    ports@.take(i as int),
                    entry_ips@,
                ),
            decreases ports.len() - i,
        {
            let ghost before = string_views(all@);
            let port = ports[i];
            proof {
                assert(ports@.take(i + 1).drop_last() =~= ports@.take(i as int));
                assert(ports@.take(i + 1).last() == port);
            }
            let mut k: usize = 0;
            while k < entry_ips.len()
                invariant
                    k <= entry_ips.len(),
                    string_views(all@) == before + address_rules(*protocol, port, entry_ips@).take(
                        k as int,
                    ),
                decreases entry_ips.len() - k,
            {
                let ghost sofar = string_views(all@);
                let rule = pass_text(protocol, &entry_ips[k], port);
                all.push(rule);
                assert(string_views(all@) =~= sofar.push(
                    pass_rule(*protocol, entry_ips@[k as int], port),
                ));
                assert(address_rules(*protocol, port, entry_ips@).take(k + 1) =~= address_rules(
                    *protocol,
                    port,
                    entry_ips@,
                ).take(k as int).push(pass_rule(*protocol, entry_ips@[k as int], port)));
                k += 1;
            }
            assert(address_rules(*protocol, port, entry_ips@).take(k as int) =~= address_rules(
                *protocol,
                port,
                entry_ips@,
            ));
            i += 1;
        }
        assert(ports@.take(i as int) =~= ports@);
        match custom_rules {
            Some(custom) => {
                let ghost before = string_views(all@);
                let mut k: usize = 0;
                while k < custom.len()
                    invariant
                        k <= custom.len(),
                        string_views(all@) == before + string_views(custom@).take(k as int),
                    decreases custom.len() - k,
                {
                    let ghost sofar = string_views(all@);
                    all.push(custom[k].clone());
                    assert(string_views(all@) =~= sofar.push(custom@[k as int]@));
                    assert(string_views(custom@).take(k + 1) =~= string_views(custom@).take(
                        k as int,
                    ).push(custom@[k as int]@));
                    k += 1;
                }
                assert(string_views(custom@).take(k as int) =~= string_views(custom@));
            },
            None => {
                assert(string_views(all@) + Seq::<Seq<char>>::empty() =~= string_views(all@));
            },
        }
        all
    }

    /// The steps that put the given rules in force.
    pub fn apply_rules(contents: Vec<String>) -> (steps: Vec<FirewallStep>)
        ensures
            step_views(steps@) == apply_steps(string_views(contents@)),
    {
        proof {
            reveal_strlit("\n");
            assert("\n"@ =~= seq!['\n']);
            lemma_join_with_char(string_views(contents@), '\n');
        }
        let text = join_text(&contents, "\n");
        let path = Self::config_path();
        let load_args = ["-f", path.as_str()];
        let load = Cmd::new("pfctl").args(&load_args);
        assert(views(load_args@) =~= seq!["-f"@, config_file()]);
        let on_args = ["-E"];
        let on = Cmd::new("pfctl").args(&on_args);
        assert(views(on_args@) =~= seq!["-E"@]);
        let steps = vec![
            FirewallStep::Write { path: Self::config_path(), contents: text },
            FirewallStep::Run(load),
            FirewallStep::Run(on),
        ];
        assert(step_views(steps@) =~= apply_steps(string_views(contents@)));
        steps
    }
}

/// Nothing that this backend does to put the killswitch in force writes
/// to the saved rules of the iptables backend.
pub proof fn lemma_backup_left_alone(intent: Intent)
    ensures
        leaves_alone(
            apply_steps(rules(intent.device, intent.protocol, intent.entry_ips, intent.custom)),
            backup_file(),
        ),
{
    reveal_strlit("/etc/protonvpn-rs");
    reveal_strlit("pf.conf");
    reveal_strlit("iptables.backup");
    assert(config_file().len() != backup_file().len());
}

} // verus!
