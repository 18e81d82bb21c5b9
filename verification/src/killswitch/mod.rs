//! The killswitch: firewall rules that let traffic pass through the tunnel
//! only.
//!
//! There is one backend per packet filter. A backend turns what is to be
//! allowed into rule text and into the steps that put the rules in force
//! or take them out again; the caller carries the steps out, in order, and
//! stops at the first that fails.

pub mod linux;
pub mod macos;

use crate::api::types::EntryIp;
use crate::client::openvpn::{Platform, Protocol};
use crate::text::string_views;
use crate::utils::{Cmd, CmdView};
use vstd::prelude::*;

verus! {

/// One step of a change of the firewall.
#[derive(Debug)]
pub enum FirewallStep {
    /// Run the command and keep what it prints in the file at `path`.
    Save { command: Cmd, path: String },
    /// Write `contents` to the file at `path`.
    Write { path: String, contents: String },
    /// Run the command.
    Run(Cmd),
    /// Run the command with the contents of the file at `path` as input.
    Feed { command: Cmd, path: String },
}

pub enum FirewallStepView {
    Save { command: CmdView, path: Seq<char> },
    Write { path: Seq<char>, contents: Seq<char> },
    Run(CmdView),
    Feed { command: CmdView, path: Seq<char> },
}

impl View for FirewallStep {
    type V = FirewallStepView;

    open spec fn view(&self) -> FirewallStepView {
        match self {
            FirewallStep::Save { command, path } => FirewallStepView::Save {
                command: command@,
                path: path@,
            },
            FirewallStep::Write { path, contents } => FirewallStepView::Write {
                path: path@,
                contents: contents@,
            },
            FirewallStep::Run(command) => FirewallStepView::Run(command@),
            FirewallStep::Feed { command, path } => FirewallStepView::Feed {
                command: command@,
                path: path@,
            },
        }
    }
}

/// The views of a list of steps.
pub open spec fn step_views(steps: Seq<FirewallStep>) -> Seq<FirewallStepView> {
    Seq::new(steps.len(), |i: int| steps[i]@)
}

/// The files of the daemon, by path, with their contents.
pub type Files = Map<Seq<char>, Seq<char>>;

/// The files after one step, where `printed` is what a saved command
/// prints. Running a command leaves the files alone.
pub open spec fn files_after_step(files: Files, step: FirewallStepView, printed: Seq<char>) -> Files {
    match step {
        FirewallStepView::Save { path, .. } => files.insert(path, printed),
        FirewallStepView::Write { path, contents } => files.insert(path, contents),
        FirewallStepView::Run(_) => files,
        FirewallStepView::Feed { .. } => files,
    }
}

/// The files after all the steps, in order.
pub open spec fn files_after(files: Files, steps: Seq<FirewallStepView>, printed: Seq<char>) -> Files
    decreases steps.len(),
{
    if steps.len() == 0 {
        files
    } else {
        files_after_step(files_after(files, steps.drop_last(), printed), steps.last(), printed)
    }
}

/// Whether no step writes to the file at `path`.
pub open spec fn leaves_alone(steps: Seq<FirewallStepView>, path: Seq<char>) -> bool {
    forall|i: int|
        0 <= i < steps.len() ==> match #[trigger] steps[i] {
            FirewallStepView::Save { path: written, .. } => written != path,
            FirewallStepView::Write { path: written, .. } => written != path,
            _ => true,
        }
}

/// Steps that do not write to a file leave it as it is: there if it was
/// there, with the same contents, and absent if it was absent.
pub proof fn lemma_left_alone(
    files: Files,
    steps: Seq<FirewallStepView>,
    printed: Seq<char>,
    path: Seq<char>,
)
    requires
        leaves_alone(steps, path),
    ensures
        files_after(files, steps, printed).dom().contains(path) == files.dom().contains(path),
        files_after(files, steps, printed)[path] == files[path],
    decreases steps.len(),
{
    if steps.len() > 0 {
        let init = steps.drop_last();
        assert forall|i: int| 0 <= i < init.len() implies match #[trigger] init[i] {
            FirewallStepView::Save { path: written, .. } => written != path,
            FirewallStepView::Write { path: written, .. } => written != path,
            _ => true,
        } by {
            assert(init[i] == steps[i]);
        }
        lemma_left_alone(files, init, printed, path);
        assert(steps.last() == steps[steps.len() - 1]);
    }
}

/// The files after two runs of steps, one after the other.
pub proof fn lemma_files_after_both(
    files: Files,
    first: Seq<FirewallStepView>,
    second: Seq<FirewallStepView>,
    printed: Seq<char>,
)
    ensures
        files_after(files, first + second, printed) == files_after(
            files_after(files, first, printed),
            second,
            printed,
        ),
    decreases second.len(),
{
    if second.len() == 0 {
        assert(first + second =~= first);
    } else {
        lemma_files_after_both(files, first, second.drop_last(), printed);
        assert((first + second).drop_last() =~= first + second.drop_last());
        assert((first + second).last() == second.last());
    }
}

/// The packet filter that the killswitch works with.
#[derive(Debug, Clone, Copy, PartialEq, Eq, Structural)]
pub enum FirewallBackend {
    Iptables,
    Pf,
}

/// What is to be allowed, and what the backend needs to know besides.
pub struct Intent {
    pub protocol: Protocol,
    /// The entry addresses of the active server.
    pub entry_ips: Seq<EntryIp>,
    /// The network device of the tunnel.
    pub device: Seq<char>,
    /// The operator's own rule lines.
    pub custom: Seq<Seq<char>>,
}

impl FirewallBackend {
    /// The backend of a platform.
    pub open spec fn of(platform: Platform) -> FirewallBackend {
        match platform {
            Platform::Linux => FirewallBackend::Iptables,
            Platform::Other => FirewallBackend::Pf,
        }
    }

    /// The steps that put the killswitch in force.
    pub open spec fn enable_steps(self, intent: Intent, backup_exists: bool) -> Seq<
        FirewallStepView,
    > {
        match self {
            FirewallBackend::Iptables => linux::enable_steps(
                intent.protocol,
                backup_exists,
                intent.device,
                intent.custom,
            ),
            FirewallBackend::Pf => macos::apply_steps(
                macos::rules(intent.device, intent.protocol, intent.entry_ips, intent.custom),
            ),
        }
    }

    /// The steps that take the killswitch out of force.
    pub open spec fn disable_steps(self) -> Seq<FirewallStepView> {
        match self {
            FirewallBackend::Iptables => linux::disable_steps(),
            FirewallBackend::Pf => macos::disable_steps(),
        }
    }

    /// The backend of a platform: iptables on Linux, pf elsewhere.
    pub fn for_platform(platform: Platform) -> (backend: FirewallBackend)
        ensures
            backend == Self::of(platform),
    {
        match platform {
            Platform::Linux => FirewallBackend::Iptables,
            Platform::Other => FirewallBackend::Pf,
        }
    }

    /// Whether the backend keeps a saved copy of the earlier rules, which
    /// the caller then has to look for before the killswitch is enabled.
    pub fn keeps_backup(&self) -> (keeps: bool)
        ensures
            keeps == (*self == FirewallBackend::Iptables),
    {
        match self {
            FirewallBackend::Iptables => true,
            FirewallBackend::Pf => false,
        }
    }

    /// Puts the killswitch in force for `protocol` and the entry addresses
    /// of the active server.
    ///
    /// `backup_exists` says whether a saved copy of the earlier rules
    /// exists, `device` is the network device of the tunnel, `custom_rules`
    /// are the operator's own rule lines.
    pub fn enable(
        &self,
        protocol: &Protocol,
        entry_ips: &Vec<EntryIp>,
        backup_exists: bool,
        device: &str,
        custom_rules: &Option<Vec<String>>,
    ) -> (steps: Vec<FirewallStep>)
        ensures
            step_views(steps@) == self.enable_steps(
                Intent {
                    protocol: *protocol,
                    entry_ips: entry_ips@,
                    device: device@,
                    custom: match custom_rules {
                        Some(custom) => string_views(custom@),
                        None => Seq::<Seq<char>>::empty(),
                    },
                },
                backup_exists,
            ),
    {
        match self {
            FirewallBackend::Iptables => linux::enable(
                protocol,
                backup_exists,
                device,
                custom_rules,
            ),
            FirewallBackend::Pf => macos::enable(protocol, entry_ips, device, custom_rules),
        }
    }

    /// Takes the killswitch out of force.
    pub fn disable(&self) -> (steps: Vec<FirewallStep>)
        ensures
            step_views(steps@) == self.disable_steps(),
    {
        match self {
            FirewallBackend::Iptables => linux::disable(),
            FirewallBackend::Pf => macos::disable(),
        }
    }
}

/// Whatever the backend: putting the killswitch in force a second time,
/// with nothing in between that touches the saved copy of the earlier rules,
/// leaves that copy as the first time left it. With iptables there is such
/// a copy after the first time.
pub proof fn lemma_enable_twice_keeps_backup(
    backend: FirewallBackend,
    files: Files,
    first: (Intent, Seq<char>),
    second: (Intent, Seq<char>),
)
    ensures
        ({
            let saved = linux::backup_file();
            let once = files_after(
                files,
                backend.enable_steps(first.0, files.dom().contains(saved)),
                first.1,
            );
            let twice = files_after(
                once,
                backend.enable_steps(second.0, once.dom().contains(saved)),
                second.1,
            );
            &&& backend == FirewallBackend::Iptables ==> once.dom().contains(saved)
            &&& twice.dom().contains(saved) == once.dom().contains(saved)
            &&& twice[saved] == once[saved]
        }),
{
    let saved = linux::backup_file();
    let once = files_after(
        files,
        backend.enable_steps(first.0, files.dom().contains(saved)),
        first.1,
    );
    match backend {
        FirewallBackend::Iptables => {
            linux::lemma_enable_twice_keeps_backup(
                files,
                (first.0.protocol, first.0.device, first.0.custom, first.1),
                (second.0.protocol, second.0.device, second.0.custom, second.1),
            );
        },
        FirewallBackend::Pf => {
            macos::lemma_backup_left_alone(second.0);
            lemma_left_alone(
                once,
                backend.enable_steps(second.0, once.dom().contains(saved)),
                second.1,
                saved,
            );
        },
    }
}

} // verus!
