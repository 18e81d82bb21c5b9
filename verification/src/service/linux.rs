//! The daemon as a systemd service.

use crate::text::views;
use crate::utils::{Cmd, CmdView};
use vstd::prelude::*;

verus! {

/// The name of the unit.
pub open spec fn label() -> Seq<char> {
    "protonvpn-rs.service"@
}

/// What goes into the unit file.
#[derive(Debug)]
pub struct SystemdService {
    pub user: String,
    pub group: String,
    /// The path of the daemon's program.
    pub bin: String,
}

/// What goes into the unit file of the daemon whose program is at `bin`: the
/// service runs as root.
pub fn generate_config(bin: &str) -> (service: SystemdService)
    ensures
        service.user@ == "root"@,
        service.group@ == "root"@,
        service.bin@ == bin@,
{
    SystemdService { user: "root".to_owned(), group: "root".to_owned(), bin: bin.to_owned() }
}

/// Where the unit file is installed: at the given path, else in the
/// directory of the system's units.
pub fn install(path: Option<&str>) -> (target: String)
    ensures
        target@ == match path {
            Some(path) => path@,
            None => "/etc/systemd/system/"@ + label(),
        },
{
    match path {
        Some(path) => path.to_owned(),
        None => {
            let mut target = "/etc/systemd/system/".to_owned();
            target.append("protonvpn-rs.service");
            target
        },
    }
}

/// The command that starts the service.
pub fn start() -> (command: Cmd)
    ensures
        command@ == CmdView::of("systemctl"@, seq!["start"@, label()]),
{
    let args = ["start", "protonvpn-rs.service"];
    let command = Cmd::new("systemctl").args(&args);
    assert(views(args@) =~= seq!["start"@, label()]);
    command
}

/// The command that stops the service.
pub fn stop() -> (command: Cmd)
    ensures
        command@ == CmdView::of("systemctl"@, seq!["stop"@, label()]),
{
    let args = ["stop", "protonvpn-rs.service"];
    let command = Cmd::new("systemctl").args(&args);
    assert(views(args@) =~= seq!["stop"@, label()]);
    command
}

} // verus!
