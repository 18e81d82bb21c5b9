//! The iptables backend of the killswitch.
//!
//! The rules that were in force before are saved once, with `iptables-save`,
//! and a saved copy is never written over. Each rule is put in force by one
//! call of `iptables`. Disabling feeds the saved copy to `iptables-restore`.

use crate::cache::{cache_dir, get_path, join_path, joined};
use crate::client::openvpn::Protocol;
use crate::killswitch::{
    files_after, leaves_alone, lemma_files_after_both, lemma_left_alone, step_views, Files,
    FirewallStep, FirewallStepView,
};
use crate::text::{decimal, push_decimal, split, split_text, string_views, views};
use crate::utils::{Cmd, CmdView};
use vstd::prelude::*;

verus! {

/// The iptables packet filter.
pub struct Iptables;

/// The path of the saved rules.
pub open spec fn backup_file() -> Seq<char> {
    joined(cache_dir(), "iptables.backup"@)
}

/// The rules that do not depend on the protocol: flush, drop everything by
/// default, allow the loopback, allow the tunnel device, allow what belongs
/// to connections over the tunnel device.
pub open spec fn base_rules(device: Seq<char>) -> Seq<Seq<char>> {
    seq![
        "-F"@,
        "-P INPUT DROP"@,
        "-P OUTPUT DROP"@,
        "-P FORWARD DROP"@,
        "-A OUTPUT -o lo -j ACCEPT"@,
        "-A INPUT -i lo -j ACCEPT"@,
        "-A OUTPUT -o "@ + device + " -j ACCEPT"@,
        "-A INPUT -i "@ + device + " -j ACCEPT"@,
        "-A OUTPUT -o "@ + device + " -m state --state ESTABLISHED,RELATED -j ACCEPT"@,
        "-A INPUT -i "@ + device + " -m state --state ESTABLISHED,RELATED -j ACCEPT"@,
    ]
}

/// The rule that lets traffic out to `port`.
pub open spec fn out_rule(protocol: Protocol, port: u32) -> Seq<char> {
    "-A OUTPUT -p "@ + protocol.name() + " -m "@ + protocol.name() + " --dport "@ + decimal(
        port as nat,
    ) + " -j ACCEPT"@
}

/// The rule that lets traffic in from `port`.
pub open spec fn in_rule(protocol: Protocol, port: u32) -> Seq<char> {
    "-A INPUT -p "@ + protocol.name() + " -m "@ + protocol.name() + " --sport "@ + decimal(
        port as nat,
    ) + " -j ACCEPT"@
}

/// For each port, in order, the rule that lets traffic out to it and the
/// rule that lets traffic in from it.
pub open spec fn port_rules(protocol: Protocol, ports: Seq<u32>) -> Seq<Seq<char>>
    decreases ports.len(),
{
    if ports.len() == 0 {
        Seq::<Seq<char>>::empty()
    } else {
        port_rules(protocol, ports.drop_last()) + seq![
            out_rule(protocol, ports.last()),
            in_rule(protocol, ports.last()),
        ]
    }
}

/// All the rules of the killswitch, in the order in which they are applied:
/// the base rules, the rules for the default ports of the protocol, then the
/// operator's own rules as they are.
pub open spec fn rules(device: Seq<char>, protocol: Protocol, custom: Seq<Seq<char>>) -> Seq<
    Seq<char>,
> {
    base_rules(device) + port_rules(protocol, protocol.ports()) + custom
}

/// The call of `iptables` for one rule: the rule's words are its arguments.
pub open spec fn rule_command(rule: Seq<char>) -> CmdView {
    CmdView::of("iptables"@, split(rule, ' '))
}

/// One step per rule, in order.
pub open spec fn rule_steps(rules: Seq<Seq<char>>) -> Seq<FirewallStepView> {
    Seq::new(rules.len(), |i: int| FirewallStepView::Run(rule_command(rules[i])))
}

/// The steps that make sure that a saved copy of the earlier rules exists:
/// none where there is one already.
pub open spec fn backup_steps(backup_exists: bool) -> Seq<FirewallStepView> {
    if backup_exists {
        Seq::<FirewallStepView>::empty()
    } else {
        seq![
            FirewallStepView::Save {
                command: CmdView::of("iptables-save"@, Seq::<Seq<char>>::empty()),
                path: backup_file(),
            },
        ]
    }
}

/// The steps that put the killswitch in force.
pub open spec fn enable_steps(
    protocol: Protocol,
    backup_exists: bool,
    device: Seq<char>,
    custom: Seq<Seq<char>>,
) -> Seq<FirewallStepView> {
    backup_steps(backup_exists) + rule_steps(rules(device, protocol, custom))
}

/// The steps that take the killswitch out of force.
pub open spec fn disable_steps() -> Seq<FirewallStepView> {
    seq![
        FirewallStepView::Feed {
            command: CmdView::of("iptables-restore"@, Seq::<Seq<char>>::empty()),
            path: backup_file(),
        },
    ]
}

fn rule3(head: &str, middle: &str, tail: &str) -> (rule: String)
    ensures
        rule@ == head@ + middle@ + tail@,
{
    let mut rule = head.to_owned();
    rule.append(middle);
    rule.append(tail);
    rule
}

fn port_rule(head: &str, protocol: &Protocol, option: &str, port: u32) -> (rule: String)
    ensures
        rule@ == head@ + protocol.name() + " -m "@ + protocol.name() + option@ + decimal(
            port as nat,
        ) + " -j ACCEPT"@,
{
    let mut rule = head.to_owned();
    rule.append(protocol.as_str());
    rule.append(" -m ");
    rule.append(protocol.as_str());
    rule.append(option);
    push_decimal(&mut rule, port);
    rule.append(" -j ACCEPT");
    rule
}

/// Puts the killswitch in force for `proto`: first a saved copy of the
/// earlier rules is made, unless one exists, then every rule is applied.
///
/// `device` is the network device of the tunnel, `custom_rules` are the
/// operator's own rule lines.
pub fn enable(
    proto: &Protocol,
    backup_exists: bool,
    device: &str,
    custom_rules: &Option<Vec<String>>,
) -> (steps: Vec<FirewallStep>)
    ensures
        step_views(steps@) == enable_steps(
            *proto,
            backup_exists,
            device@,
            match custom_rules {
                Some(custom) => string_views(custom@),
                None => Seq::<Seq<char>>::empty(),
            },
        ),
{
    let ghost custom = match custom_rules {
        Some(custom) => string_views(custom@),
        None => Seq::<Seq<char>>::empty(),
    };
    let mut steps = Iptables::backup(backup_exists);
    let ghost saved = step_views(steps@);
    let mut all = Iptables::rules(proto, device, custom_rules);
    let mut applied = Iptables::apply_rules(all);
    let ghost runs = step_views(applied@);
    steps.append(&mut applied);
    assert(step_views(steps@) =~= saved + runs);
    steps
}

/// Takes the killswitch out of force: the saved rules are restored.
pub fn disable() -> (steps: Vec<FirewallStep>)
    ensures
        step_views(steps@) == disable_steps(),
{
    let steps = vec![Iptables::restore()];
    assert(step_views(steps@) =~= disable_steps());
    steps
}

impl Iptables {
    /// The path of the saved rules.
    pub fn backup_path() -> (path: String)
        ensures
            path@ == backup_file(),
    {
        join_path(get_path().as_str(), "iptables.backup")
    }

    /// The steps that make sure that a saved copy of the earlier rules
    /// exists. A copy that exists is not written over.
    pub fn backup(backup_exists: bool) -> (steps: Vec<FirewallStep>)
        ensures
            step_views(steps@) == backup_steps(backup_exists),
    {
        if backup_exists {
            let steps: Vec<FirewallStep> = Vec::new();
            assert(step_views(steps@) =~= backup_steps(backup_exists));
            steps
        } else {
            let none: [&str; 0] = [];
            let command = Cmd::new("iptables-save").args(&none);
            assert(views(none@) =~= Seq::<Seq<char>>::empty());
            let steps = vec![FirewallStep::Save { command, path: Self::backup_path() }];
            assert(step_views(steps@) =~= backup_steps(backup_exists));
            steps
        }
    }

    /// The step that restores the saved rules.
    pub fn restore() -> (step: FirewallStep)
        ensures
            seq![step@] == disable_steps(),
    {
        let none: [&str; 0] = [];
        let command = Cmd::new("iptables-restore").args(&none);
        assert(views(none@) =~= Seq::<Seq<char>>::empty());
        let step = FirewallStep::Feed { command, path: Self::backup_path() };
        assert(seq![step@] =~= disable_steps());
        step
    }

    /// All the rules of the killswitch, in the order in which they are
    /// applied.
    pub fn rules(proto: &Protocol, device: &str, custom_rules: &Option<Vec<String>>) -> (all: Vec<
        String,
    >)
        ensures
            string_views(all@) == rules(
                device@,
                *proto,
                match custom_rules {
                    Some(custom) => string_views(custom@),
                    None => Seq::<Seq<char>>::empty(),
                },
            ),
    {
        let mut all: Vec<String> = Vec::new();
        all.push("-F".to_owned());
        all.push("-P INPUT DROP".to_owned());
        all.push("-P OUTPUT DROP".to_owned());
        all.push("-P FORWARD DROP".to_owned());
        all.push("-A OUTPUT -o lo -j ACCEPT".to_owned());
        all.push("-A INPUT -i lo -j ACCEPT".to_owned());
        all.push(rule3("-A OUTPUT -o ", device, " -j ACCEPT"));
        all.push(rule3("-A INPUT -i ", device, " -j ACCEPT"));
        all.push(
            rule3("-A OUTPUT -o ", device, " -m state --state ESTABLISHED,RELATED -j ACCEPT"),
        );
        all.push(rule3("-A INPUT -i ", device, " -m state --state ESTABLISHED,RELATED -j ACCEPT"));
        assert(string_views(all@) =~= base_rules(device@));
        let ports = proto.default_ports();
        let mut i: usize = 0;
        assert(ports@.take(0) =~= Seq::<u32>::empty());
        while i < ports.len()
            invariant
                i <= ports.len(),
                ports@ == proto.ports(),
                string_views(all@) == base_rules(device@) + port_rules(
                    *proto,
                    ports@.take(i as int),
                ),
            decreases ports.len() - i,
        {
            let ghost before = string_views(all@);
            let port = ports[i];
            proof {
                assert(ports@.take(i + 1).drop_last() =~= ports@.take(i as int));
                assert(ports@.take(i + 1).last() == port);
            }
            all.push(port_rule("-A OUTPUT -p ", proto, " --dport ", port));
            all.push(port_rule("-A INPUT -p ", proto, " --sport ", port));
            assert(string_views(all@) =~= before + seq![
                out_rule(*proto, port),
                in_rule(*proto, port),
            ]);
            i += 1;
        }
        assert(ports@.take(i as int) =~= ports@);
        match custom_rules {
            Some(custom) => {
                let ghost before = string_views(all@);
                let mut k: usize = 0;
                while k < custom.len()
                    invariant
                        k <= custom.len(),
                        string_views(all@) == before + string_views(custom@).take(k as int),
                    decreases custom.len() - k,
                {
                    let ghost sofar = string_views(all@);
                    all.push(custom[k].clone());
                    assert(string_views(all@) =~= sofar.push(custom@[k as int]@));
                    assert(string_views(custom@).take(k + 1) =~= string_views(custom@).take(
                        k as int,
                    ).push(custom@[k as int]@));
                    k += 1;
                }
                assert(string_views(custom@).take(k as int) =~= string_views(custom@));
            },
            None => {
                assert(string_views(all@) + Seq::<Seq<char>>::empty() =~= string_views(all@));
            },
        }
        all
    }

    /// The call of `iptables` that puts one rule in force.
    pub fn set_rule(args: String) -> (command: Cmd)
        ensures
            command@ == rule_command(args@),
    {
        let words = split_text(args.as_str(), ' ');
        Cmd::new("iptables").args(words.as_slice())
    }

    /// One call of `iptables` per rule, in order.
    pub fn apply_rules(rules: Vec<String>) -> (steps: Vec<FirewallStep>)
        ensures
            step_views(steps@) == rule_steps(string_views(rules@)),
    {
        let mut steps: Vec<FirewallStep> = Vec::new();
        let mut i: usize = 0;
        while i < rules.len()
            invariant
                i <= rules.len(),
                steps@.len() == i,
                forall|k: int|
                    0 <= k < i ==> (#[trigger] steps@[k])@ == FirewallStepView::Run(
                        rule_command(rules@[k]@),
                    ),
            decreases rules.len() - i,
        {
            steps.push(FirewallStep::Run(Self::set_rule(rules[i].clone())));
            i += 1;
        }
        assert(step_views(steps@) =~= rule_steps(string_views(rules@)));
        steps
    }
}

/// Putting the killswitch in force always leaves a saved copy of the
/// earlier rules, and one that was there before is left as it was.
pub proof fn lemma_enable_secures_backup(
    files: Files,
    protocol: Protocol,
    device: Seq<char>,
    custom: Seq<Seq<char>>,
    printed: Seq<char>,
)
    ensures
        ({
            let exists = files.dom().contains(backup_file());
            let after = files_after(
                files,
                enable_steps(protocol, exists, device, custom),
                printed,
            );
            &&& after.dom().contains(backup_file())
            &&& after[backup_file()] == if exists {
                files[backup_file()]
            } else {
                printed
            }
        }),
{
    let exists = files.dom().contains(backup_file());
    let saved = backup_steps(exists);
    let runs = rule_steps(rules(device, protocol, custom));
    lemma_files_after_both(files, saved, runs, printed);
    let between = files_after(files, saved, printed);
    assert(leaves_alone(runs, backup_file()));
    lemma_left_alone(between, runs, printed, backup_file());
    if !exists {
        assert(saved.drop_last() =~= Seq::<FirewallStepView>::empty());
        assert(files_after(files, saved.drop_last(), printed) == files);
    }
}

/// Putting the killswitch in force twice, with nothing in between that
/// touches the saved copy, leaves the copy of the first time unchanged,
/// whatever the rules are by then and whatever is asked for the second time.
pub proof fn lemma_enable_twice_keeps_backup(
    files: Files,
    first: (Protocol, Seq<char>, Seq<Seq<char>>, Seq<char>),
    second: (Protocol, Seq<char>, Seq<Seq<char>>, Seq<char>),
)
    ensures
        ({
            let once = files_after(
                files,
                enable_steps(first.0, files.dom().contains(backup_file()), first.1, first.2),
                first.3,
            );
            let twice = files_after(
                once,
                enable_steps(second.0, once.dom().contains(backup_file()), second.1, second.2),
                second.3,
            );
            &&& once.dom().contains(backup_file())
            &&& twice.dom().contains(backup_file())
            &&& twice[backup_file()] == once[backup_file()]
        }),
{
    lemma_enable_secures_backup(files, first.0, first.1, first.2, first.3);
    let once = files_after(
        files,
        enable_steps(first.0, files.dom().contains(backup_file()), first.1, first.2),
        first.3,
    );
    lemma_enable_secures_backup(once, second.0, second.1, second.2, second.3);
}

/// There are two rules for every port.
pub proof fn lemma_port_rules_len(protocol: Protocol, ports: Seq<u32>)
    ensures
        port_rules(protocol, ports).len() == 2 * ports.len(),
    decreases ports.len(),
{
    if ports.len() > 0 {
        lemma_port_rules_len(protocol, ports.drop_last());
    }
}

/// The killswitch has ten base rules, two rules for every default port of
/// the protocol, and the operator's own; each of them is one step, after the
/// step that saves the earlier rules where that has to be done.
pub proof fn lemma_rules_len(
    device: Seq<char>,
    protocol: Protocol,
    custom: Seq<Seq<char>>,
    backup_exists: bool,
)
    ensures
        rules(device, protocol, custom).len() == 10 + 2 * protocol.ports().len() + custom.len(),
        enable_steps(protocol, backup_exists, device, custom).len() == rules(
            device,
            protocol,
            custom,
        ).len() + if backup_exists {
            0int
        } else {
            1int
        },
{
    lemma_port_rules_len(protocol, protocol.ports());
}

} // verus!
