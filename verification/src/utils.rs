//! Commands for helper programs, and what the daemon makes of the way they
//! and other outside work ended.

use crate::cache::{join_path, joined};
use crate::client::Pid;
use crate::text::{decimal, push_decimal, same_text, views};
use vstd::prelude::*;

verus! {

/// A helper program with its arguments, ready to be run.
#[derive(Debug)]
pub struct Cmd {
    pub program: String,
    pub args: Option<Vec<String>>,
}

pub struct CmdView {
    pub program: Seq<char>,
    pub args: Option<Seq<Seq<char>>>,
}

impl View for Cmd {
    type V = CmdView;

    open spec fn view(&self) -> CmdView {
        CmdView {
            program: self.program@,
            args: match self.args {
                Some(args) => Some(Seq::new(args@.len(), |i: int| args@[i]@)),
                None => None,
            },
        }
    }
}

impl CmdView {
    /// The command `program` with the arguments `args`.
    pub open spec fn of(program: Seq<char>, args: Seq<Seq<char>>) -> CmdView {
        CmdView { program, args: Some(args) }
    }
}

impl Cmd {
    /// The command that runs `program` without arguments.
    pub fn new(program: &str) -> (cmd: Cmd)
        ensures
            cmd@ == (CmdView { program: program@, args: None }),
    {
        Cmd { program: program.to_owned(), args: None }
    }

    /// The same command with `args` as its arguments.
    pub fn args(self, args: &[&str]) -> (cmd: Cmd)
        ensures
            cmd@ == CmdView::of(self@.program, views(args@)),
    {
        let mut owned: Vec<String> = Vec::new();
        let mut i: usize = 0;
        while i < args.len()
            invariant
                i <= args.len(),
                owned@.len() == i,
                forall|k: int| 0 <= k < i ==> (#[trigger] owned@[k])@ == args@[k]@,
            decreases args.len() - i,
        {
            owned.push(args[i].to_owned());
            i += 1;
        }
        let cmd = Cmd { program: self.program, args: Some(owned) };
        assert(cmd@.args->0 =~= views(args@));
        cmd
    }
}

/// Why a helper program did not do its work.
#[derive(Debug, Clone, Copy, PartialEq, Eq, Structural)]
pub enum CmdErrorKind {
    /// The program ended with a failure status.
    Failed,
    /// What the program printed is no UTF-8 text.
    NotText,
}

/// A helper program that did not do its work.
#[derive(Debug)]
pub struct CmdError {
    pub kind: CmdErrorKind,
    /// A description, with what the program printed on its error stream
    /// where that is known.
    pub message: String,
}

/// What comes of a program that was run for its output: the text it
/// printed if it ended well, else a failure that quotes its error stream.
/// A stream is `None` where it is no UTF-8 text.
pub fn output_result(success: bool, stdout: Option<String>, stderr: Option<String>) -> (r: Result<
    String,
    CmdError,
>)
    ensures
        match r {
            Ok(text) => success && stdout == Some(text),
            Err(e) => match (success, stdout, stderr) {
                (true, None, _) => e.kind == CmdErrorKind::NotText,
                (true, Some(_), _) => false,
                (false, _, None) => e.kind == CmdErrorKind::NotText,
                (false, _, Some(printed)) => e.kind == CmdErrorKind::Failed && e.message@
                    == "Failed to start system service, error: "@ + printed@,
            },
        },
{
    if success {
        match stdout {
            Some(text) => Ok(text),
            None => Err(not_text()),
        }
    } else {
        match stderr {
            Some(printed) => {
                let mut message = "Failed to start system service, error: ".to_owned();
                message.append(printed.as_str());
                Err(CmdError { kind: CmdErrorKind::Failed, message })
            },
            None => Err(not_text()),
        }
    }
}

/// What comes of a program that was run for its effect alone.
pub fn exec_result(success: bool, stderr: Option<String>) -> (r: Result<(), CmdError>)
    ensures
        r is Ok <==> success,
        match r {
            Ok(_) => true,
            Err(e) => match stderr {
                None => e.kind == CmdErrorKind::NotText,
                Some(printed) => e.kind == CmdErrorKind::Failed && e.message@
                    == "Failed to run command in subprocess, error: "@ + printed@,
            },
        },
{
    if success {
        Ok(())
    } else {
        match stderr {
            Some(printed) => {
                let mut message = "Failed to run command in subprocess, error: ".to_owned();
                message.append(printed.as_str());
                Err(CmdError { kind: CmdErrorKind::Failed, message })
            },
            None => Err(not_text()),
        }
    }
}

/// What comes of a program that was fed its input.
pub fn input_result(success: bool) -> (r: Result<(), CmdError>)
    ensures
        r is Ok <==> success,
        r matches Err(e) ==> e.kind == CmdErrorKind::Failed && e.message@
            == "something went wrong, idk"@,
{
    if success {
        Ok(())
    } else {
        Err(
            CmdError {
                kind: CmdErrorKind::Failed,
                message: "something went wrong, idk".to_owned(),
            },
        )
    }
}

fn not_text() -> (e: CmdError)
    ensures
        e.kind == CmdErrorKind::NotText,
{
    CmdError { kind: CmdErrorKind::NotText, message: "output is not valid UTF-8".to_owned() }
}

/// Why a process could not be ended.
#[derive(Debug, Clone, Copy, PartialEq, Eq, Structural)]
pub enum KillErrorKind {
    /// There is no process with that identifier.
    NoSuchProcess,
    /// The signal could not be sent.
    NotDelivered,
    /// The platform does not know the signal.
    Unsupported,
}

/// A process that could not be ended.
#[derive(Debug)]
pub struct KillError {
    pub kind: KillErrorKind,
    pub message: String,
}

/// The message of a failure to end the process `pid`.
pub open spec fn kill_message(kind: KillErrorKind, pid: u32) -> Seq<char> {
    match kind {
        KillErrorKind::NoSuchProcess => "No such process: pid "@ + decimal(pid as nat),
        KillErrorKind::NotDelivered => "Failed to send out SIGTERM to pid: "@ + decimal(
            pid as nat,
        ),
        KillErrorKind::Unsupported => "SIGTERM not supported on this platform"@,
    }
}

/// What the attempt to signal a process amounts to.
///
/// `found` says whether the process exists; `delivered` is what sending the
/// signal returned: whether it was sent, or nothing where the platform does
/// not know the signal. Only after `Ok` is the end of the process waited for.
pub fn kill_process(pid: &Pid, found: bool, delivered: Option<bool>) -> (r: Result<(), KillError>)
    ensures
        r is Ok <==> found && delivered == Some(true),
        r matches Err(e) ==> {
            &&& e.message@ == kill_message(e.kind, pid@)
            &&& e.kind == if !found {
                KillErrorKind::NoSuchProcess
            } else if delivered is None {
                KillErrorKind::Unsupported
            } else {
                KillErrorKind::NotDelivered
            }
        },
{
    if !found {
        let mut message = "No such process: pid ".to_owned();
        push_decimal(&mut message, pid.as_u32());
        return Err(KillError { kind: KillErrorKind::NoSuchProcess, message });
    }
    match delivered {
        Some(true) => Ok(()),
        Some(false) => {
            let mut message = "Failed to send out SIGTERM to pid: ".to_owned();
            push_decimal(&mut message, pid.as_u32());
            Err(KillError { kind: KillErrorKind::NotDelivered, message })
        },
        None => Err(
            KillError {
                kind: KillErrorKind::Unsupported,
                message: "SIGTERM not supported on this platform".to_owned(),
            },
        ),
    }
}

/// What woke the wait for a file.
#[derive(Debug, Clone, Copy, PartialEq, Eq, Structural)]
pub enum WatchEvent {
    /// Something was created in the watched directory.
    Created,
    /// Something in the watched directory was changed.
    Modified,
    /// Some other change was reported.
    Other,
    /// The watcher reported a failure.
    Failed,
    /// Nothing was reported in time.
    TimedOut,
}

/// What the wait for a file does next.
#[derive(Debug, Clone, Copy, PartialEq, Eq, Structural)]
pub enum WaitStep {
    /// Read the file and stop waiting.
    Read,
    /// Keep waiting.
    Wait,
    /// Give up with the watcher's failure.
    Abort,
    /// Give up because the deadline has passed.
    TimedOut,
}

/// How long one wait for a change of the directory lasts, in seconds.
pub const WATCH_TIMEOUT_SECS: u64 = 5;

/// What one round of the wait for a file comes to.
///
/// After a creation, a change or a timeout the file is read if it exists.
/// A failure of the watcher ends the wait. Otherwise the wait goes on,
/// unless a deadline is set and `waited`, the seconds spent so far, have
/// reached it: without a deadline the wait has no end of its own.
pub open spec fn wait_step(event: WatchEvent, exists: bool, waited: u64, deadline: Option<u64>) -> WaitStep {
    if event == WatchEvent::Failed {
        WaitStep::Abort
    } else if event != WatchEvent::Other && exists {
        WaitStep::Read
    } else if deadline is Some && waited >= deadline->0 {
        WaitStep::TimedOut
    } else {
        WaitStep::Wait
    }
}

/// One round of the wait for a file to appear.
pub fn wait_for_file_and_read(event: WatchEvent, exists: bool, waited: u64, deadline: Option<u64>) -> (step:
    WaitStep)
    ensures
        step == wait_step(event, exists, waited, deadline),
{
    match event {
        WatchEvent::Failed => {
            return WaitStep::Abort;
        },
        WatchEvent::Other => {},
        WatchEvent::Created | WatchEvent::Modified | WatchEvent::TimedOut => {
            if exists {
                return WaitStep::Read;
            }
        },
    }
    match deadline {
        Some(limit) => {
            if waited >= limit {
                WaitStep::TimedOut
            } else {
                WaitStep::Wait
            }
        },
        None => WaitStep::Wait,
    }
}

/// Without a deadline the wait never gives up on its own, and with one it
/// never goes on once the deadline has passed.
pub proof fn lemma_wait_deadline(event: WatchEvent, exists: bool, waited: u64, deadline: Option<u64>)
    ensures
        deadline is None ==> wait_step(event, exists, waited, deadline) != WaitStep::TimedOut,
        deadline is Some && waited >= deadline->0 ==> wait_step(event, exists, waited, deadline)
            != WaitStep::Wait,
{
}

/// What the daemon reads of a network interface.
#[derive(Debug)]
pub struct Nic {
    pub name: String,
    pub up: bool,
    pub loopback: bool,
    /// How many addresses the interface has.
    pub addresses: usize,
}

impl Nic {
    /// Whether this is a usable interface with the given name: up, not the
    /// loopback, with an address.
    pub open spec fn usable_as(self, name: Seq<char>) -> bool {
        self.up && !self.loopback && self.addresses > 0 && self.name@ == name
    }
}

/// Index of the first usable interface with the given name.
pub fn find_nic(interfaces: &Vec<Nic>, interface_name: &str) -> (found: Option<usize>)
    ensures
        match found {
            Some(i) => i < interfaces.len() && interfaces[i as int].usable_as(interface_name@)
                && forall|k: int| 0 <= k < i ==> !(#[trigger] interfaces[k]).usable_as(
                    interface_name@,
                ),
            None => forall|k: int| 0 <= k < interfaces.len() ==> !(#[trigger] interfaces[k]).usable_as(
                interface_name@),
        },
{
    let mut i: usize = 0;
    while i < interfaces.len()
        invariant
            i <= interfaces.len(),
            forall|k: int| 0 <= k < i ==> !(#[trigger] interfaces[k]).usable_as(interface_name@),
        decreases interfaces.len() - i,
    {
        let nic = &interfaces[i];
        if nic.up && !nic.loopback && nic.addresses > 0 && same_text(
            nic.name.as_str(),
            interface_name,
        ) {
            return Some(i);
        }
        i += 1;
    }
    None
}

/// The path of the running program: its first argument, seen from the
/// current directory. Without a first argument there is none.
pub fn absolute_binary_path(first_argument: Option<&str>, current_dir: &str) -> (path: Option<
    String,
>)
    ensures
        match first_argument {
            Some(program) => path is Some && path->0@ == joined(current_dir@, program@),
            None => path is None,
        },
{
    match first_argument {
        Some(program) => Some(join_path(current_dir, program)),
        None => None,
    }
}

} // verus!
