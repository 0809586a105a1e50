//! Command lines the shell runs on the library's behalf, and what running
//! one can report back.
//!
//! Two platforms are told apart: one with a native tree-kill, on which a
//! child process would open a console window unless told not to, and one on
//! which a process tree is killed through its process group.

use vstd::prelude::*;
use vstd::string::StringExecFns;
use crate::supervisor::ReaperStep;
use crate::text::decimal;
use crate::text::push_decimal;
use crate::text::texts;
use crate::CONTROL_PORT;

verus! {

/// What became of a command that was run to completion.
#[derive(Debug, Clone, PartialEq, Eq)]
pub enum CommandOutcome {
    /// The command ran and exited; `success` holds for exit code zero.
    Finished { success: bool, stdout: String, stderr: String },
    /// The command could not be run at all.
    NotRun { reason: String },
}

/// The platform the shell runs on.
#[derive(Debug, Clone, Copy, PartialEq, Eq, Structural)]
pub enum Platform {
    Windows,
    Unix,
}

/// A program with its arguments. `hide_window` asks that the process be
/// created without a console window.
#[derive(Debug, Clone, PartialEq, Eq)]
pub struct CommandLine {
    pub program: String,
    pub args: Vec<String>,
    pub hide_window: bool,
}

/// A command line with its texts as character sequences.
pub struct CommandLineView {
    pub program: Seq<char>,
    pub args: Seq<Seq<char>>,
    pub hide_window: bool,
}

impl View for CommandLine {
    type V = CommandLineView;

    open spec fn view(&self) -> CommandLineView {
        CommandLineView {
            program: self.program@,
            args: texts(self.args@),
            hide_window: self.hide_window,
        }
    }
}

/// Whether processes on `platform` are created without a console window.
pub open spec fn hides_window(platform: Platform) -> bool {
    platform is Windows
}

/// The command that force-terminates process `pid` with all of its
/// descendants: the native tree-kill where there is one, else a kill signal
/// to the process group that `pid` leads.
pub open spec fn tree_kill_line(platform: Platform, pid: u32) -> CommandLineView {
    match platform {
        Platform::Windows => CommandLineView {
            program: "taskkill"@,
            args: seq!["/F"@, "/T"@, "/PID"@, decimal(pid as nat)],
            hide_window: true,
        },
        Platform::Unix => CommandLineView {
            program: "kill"@,
            args: seq!["-9"@, "-"@ + decimal(pid as nat)],
            hide_window: false,
        },
    }
}

/// The shell script that force-terminates whatever listens on the control
/// port.
pub open spec fn port_sweep_script(platform: Platform) -> Seq<char> {
    match platform {
        Platform::Windows => "for /f \"tokens=5\" %a in ('netstat -ano ^| findstr :"@ + decimal(
            CONTROL_PORT as nat,
        ) + " ^| findstr LISTENING') do taskkill /F /PID %a 2>nul"@,
        Platform::Unix => "fuser -k "@ + decimal(CONTROL_PORT as nat) + "/tcp 2>/dev/null"@,
    }
}

/// The command that frees the control port from any process bound to it.
pub open spec fn port_sweep_line(platform: Platform) -> CommandLineView {
    match platform {
        Platform::Windows => CommandLineView {
            program: "cmd"@,
            args: seq!["/C"@, port_sweep_script(platform)],
            hide_window: true,
        },
        Platform::Unix => CommandLineView {
            program: "sh"@,
            args: seq!["-c"@, port_sweep_script(platform)],
            hide_window: false,
        },
    }
}

/// The command that installs the worker's dependencies, run in the worker's
/// directory; with `production_only`, without those needed for development
/// alone.
pub open spec fn install_line(platform: Platform, production_only: bool) -> CommandLineView {
    let flags = if production_only {
        seq!["--production"@]
    } else {
        Seq::<Seq<char>>::empty()
    };
    match platform {
        Platform::Windows => CommandLineView {
            program: "cmd"@,
            args: seq!["/C"@, "npm"@, "install"@] + flags,
            hide_window: true,
        },
        Platform::Unix => CommandLineView {
            program: "npm"@,
            args: seq!["install"@] + flags,
            hide_window: false,
        },
    }
}

/// The command that launches the worker, run in the worker's directory with
/// its output discarded.
pub open spec fn worker_line(platform: Platform) -> CommandLineView {
    CommandLineView {
        program: "node"@,
        args: seq!["index.js"@],
        hide_window: hides_window(platform),
    }
}

/// The command that asks the worker's runtime for its version.
pub open spec fn runtime_version_line(platform: Platform) -> CommandLineView {
    CommandLineView {
        program: "node"@,
        args: seq!["--version"@],
        hide_window: hides_window(platform),
    }
}

fn push_arg(args: &mut Vec<String>, arg: String)
    ensures
        texts(final(args)@) == texts(old(args)@).push(arg@),
{
    args.push(arg);
    assert(texts(args@) =~= texts(old(args)@).push(arg@));
}

fn push_word(args: &mut Vec<String>, word: &str)
    ensures
        texts(final(args)@) == texts(old(args)@).push(word@),
{
    push_arg(args, String::from_str(word));
}

fn no_args() -> (args: Vec<String>)
    ensures
        texts(args@) == Seq::<Seq<char>>::empty(),
{
    let args: Vec<String> = Vec::new();
    assert(texts(args@) =~= Seq::<Seq<char>>::empty());
    args
}

fn is_windows(platform: Platform) -> (b: bool)
    ensures
        b == hides_window(platform),
{
    match platform {
        Platform::Windows => true,
        Platform::Unix => false,
    }
}

/// The command that force-terminates process `pid` with all of its
/// descendants.
pub fn tree_kill_command(platform: Platform, pid: u32) -> (c: CommandLine)
    ensures
        c@ == tree_kill_line(platform, pid),
{
    let mut args = no_args();
    match platform {
        Platform::Windows => {
            push_word(&mut args, "/F");
            push_word(&mut args, "/T");
            push_word(&mut args, "/PID");
            let mut number = String::new();
            push_decimal(&mut number, pid as u64);
            assert(number@ =~= decimal(pid as nat));
            push_arg(&mut args, number);
            let c = CommandLine { program: String::from_str("taskkill"), args, hide_window: true };
            assert(c@.args =~= tree_kill_line(platform, pid).args);
            c
        },
        Platform::Unix => {
            push_word(&mut args, "-9");
            let mut group = String::from_str("-");
            push_decimal(&mut group, pid as u64);
            push_arg(&mut args, group);
            let c = CommandLine { program: String::from_str("kill"), args, hide_window: false };
            assert(c@.args =~= tree_kill_line(platform, pid).args);
            c
        },
    }
}

/// The command that frees the control port from any process bound to it.
pub fn port_sweep_command(platform: Platform) -> (c: CommandLine)
    ensures
        c@ == port_sweep_line(platform),
{
    let mut args = no_args();
    match platform {
        Platform::Windows => {
            push_word(&mut args, "/C");
            let mut script = String::from_str(
                "for /f \"tokens=5\" %a in ('netstat -ano ^| findstr :",
            );
            push_decimal(&mut script, CONTROL_PORT as u64);
            script.append(" ^| findstr LISTENING') do taskkill /F /PID %a 2>nul");
            push_arg(&mut args, script);
            let c = CommandLine { program: String::from_str("cmd"), args, hide_window: true };
            assert(c@.args =~= port_sweep_line(platform).args);
            c
        },
        Platform::Unix => {
            push_word(&mut args, "-c");
            let mut script = String::from_str("fuser -k ");
            push_decimal(&mut script, CONTROL_PORT as u64);
            script.append("/tcp 2>/dev/null");
            push_arg(&mut args, script);
            let c = CommandLine { program: String::from_str("sh"), args, hide_window: false };
            assert(c@.args =~= port_sweep_line(platform).args);
            c
        },
    }
}

/// The command that installs the worker's dependencies.
pub fn install_command(platform: Platform, production_only: bool) -> (c: CommandLine)
    ensures
        c@ == install_line(platform, production_only),
{
    let mut args = no_args();
    let program = match platform {
        Platform::Windows => {
            push_word(&mut args, "/C");
            push_word(&mut args, "npm");
            "cmd"
        },
        Platform::Unix => "npm",
    };
    push_word(&mut args, "install");
    if production_only {
        push_word(&mut args, "--production");
    }
    let c = CommandLine {
        program: String::from_str(program),
        args,
        hide_window: is_windows(platform),
    };
    assert(c@.args =~= install_line(platform, production_only).args);
    c
}

/// The command that launches the worker.
pub fn worker_command(platform: Platform) -> (c: CommandLine)
    ensures
        c@ == worker_line(platform),
{
    let mut args = no_args();
    push_word(&mut args, "index.js");
    let c = CommandLine {
        program: String::from_str("node"),
        args,
        hide_window: is_windows(platform),
    };
    assert(c@.args =~= worker_line(platform).args);
    c
}

/// The command that asks the worker's runtime for its version.
pub fn runtime_version_command(platform: Platform) -> (c: CommandLine)
    ensures
        c@ == runtime_version_line(platform),
{
    let mut args = no_args();
    push_word(&mut args, "--version");
    let c = CommandLine {
        program: String::from_str("node"),
        args,
        hide_window: is_windows(platform),
    };
    assert(c@.args =~= runtime_version_line(platform).args);
    c
}

/// The command line behind a cleanup step: killing a process tree and
/// sweeping the port are commands; the other steps act on the process
/// handle or on the clock and have none.
pub open spec fn reaper_line(step: ReaperStep, platform: Platform) -> Option<CommandLineView> {
    match step {
        ReaperStep::KillTree { pid } => Some(tree_kill_line(platform, pid)),
        ReaperStep::SweepPort => Some(port_sweep_line(platform)),
        _ => None,
    }
}

/// The command to run for a cleanup step, if it is carried out by one.
pub fn reaper_command(step: ReaperStep, platform: Platform) -> (c: Option<CommandLine>)
    ensures
        match c {
            Some(line) => reaper_line(step, platform) == Some(line@),
            None => reaper_line(step, platform) is None,
        },
{
    match step {
        ReaperStep::KillTree { pid } => Some(tree_kill_command(platform, pid)),
        ReaperStep::SweepPort => Some(port_sweep_command(platform)),
        _ => None,
    }
}

} // verus!
