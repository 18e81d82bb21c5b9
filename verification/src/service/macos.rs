//! The daemon as a launchd agent.

use crate::cache::{join_path, joined};
use crate::text::views;
use crate::utils::{Cmd, CmdView};
use vstd::prelude::*;

verus! {

/// The label of the agent.
pub open spec fn label() -> Seq<char> {
    "com.juliamertz.protonvpnrs"@
}

/// What goes into the property list of the agent.
#[derive(Debug)]
pub struct LaunchAgent {
    /// The path of the daemon's program.
    pub bin: String,
    pub log_path: String,
    pub label: String,
}

/// What goes into the property list of the daemon whose program is at
/// `bin`.
pub fn generate_config(bin: &str) -> (agent: LaunchAgent)
    ensures
        agent.bin@ == bin@,
        agent.log_path@ == "/tmp/protonvpn-rs"@,
        agent.label@ == label(),
{
    LaunchAgent {
        bin: bin.to_owned(),
        log_path: "/tmp/protonvpn-rs".to_owned(),
        label: "com.juliamertz.protonvpnrs".to_owned(),
    }
}

/// The path of the property list for a user whose home directory is `home`.
pub open spec fn plist_file(home: Seq<char>) -> Seq<char> {
    joined(home, "Library/LaunchAgents/"@ + label() + ".plist"@)
}

/// The path of the property list for a user whose home directory is `home`.
pub fn plist_path(home: &str) -> (path: String)
    ensures
        path@ == plist_file(home@),
{
    let mut name = "Library/LaunchAgents/".to_owned();
    name.append("com.juliamertz.protonvpnrs");
    name.append(".plist");
    join_path(home, name.as_str())
}

/// Where the property list is installed: at the given path, else among the
/// user's agents.
pub fn install(path: Option<&str>, home: &str) -> (target: String)
    ensures
        target@ == match path {
            Some(path) => path@,
            None => plist_file(home@),
        },
{
    match path {
        Some(path) => path.to_owned(),
        None => plist_path(home),
    }
}

/// The command that loads and starts the agent.
pub fn start(home: &str) -> (command: Cmd)
    ensures
        command@ == CmdView::of("launchctl"@, seq!["load"@, "-w"@, plist_file(home@)]),
{
    let path = plist_path(home);
    let args = ["load", "-w", path.as_str()];
    let command = Cmd::new("launchctl").args(&args);
    assert(views(args@) =~= seq!["load"@, "-w"@, plist_file(home@)]);
    command
}

/// The command that unloads the agent.
pub fn stop(home: &str) -> (command: Cmd)
    ensures
        command@ == CmdView::of("launchctl"@, seq!["unload"@, plist_file(home@)]),
{
    let path = plist_path(home);
    let args = ["unload", path.as_str()];
    let command = Cmd::new("launchctl").args(&args);
    assert(views(args@) =~= seq!["unload"@, plist_file(home@)]);
    command
}

} // verus!
