//! The processes that the shell runs beside the engine, and what it makes of
//! their outcome.

use vstd::prelude::*;
use crate::text::{decimal, decimal_string, fails_with, texts};

verus! {

/// The operating systems that the shell tells apart.
#[derive(Clone, Copy, Debug, PartialEq, Eq, Structural)]
pub enum Platform {
    Windows,
    MacOs,
    Other,
}

/// The directory that a process runs in.
#[derive(Clone, Copy, Debug, PartialEq, Eq, Structural)]
pub enum WorkDir {
    /// The shell's own.
    Inherited,
    /// The engine directory.
    EngineDir,
    /// The app config directory.
    ConfigDir,
}

/// A process to run.
#[derive(Debug)]
pub struct CommandSpec {
    pub program: String,
    pub args: Vec<String>,
    pub dir: WorkDir,
    /// The process is watched: it gets no input, its output is read, it is
    /// told not to colour that output (`NO_COLOR=1`), and on Windows it opens
    /// no console window.
    pub watched: bool,
    /// Where the system has process groups, the process leads one of its own,
    /// which the processes that it starts belong to.
    pub leads_group: bool,
}

/// The content of a `CommandSpec`.
pub ghost struct CommandModel {
    pub program: Seq<char>,
    pub args: Seq<Seq<char>>,
    pub dir: WorkDir,
    pub watched: bool,
    pub leads_group: bool,
}

impl View for CommandSpec {
    type V = CommandModel;

    open spec fn view(&self) -> CommandModel {
        CommandModel {
            program: self.program@,
            args: texts(self.args@),
            dir: self.dir,
            watched: self.watched,
            leads_group: self.leads_group,
        }
    }
}

/// The command of a process that the shell keeps and reads.
pub open spec fn kept_command(
    program: Seq<char>,
    args: Seq<Seq<char>>,
    dir: WorkDir,
) -> CommandModel {
    CommandModel { program, args, dir, watched: true, leads_group: true }
}

/// The command of a helper that the shell runs and forgets.
pub open spec fn helper_command(program: Seq<char>, args: Seq<Seq<char>>) -> CommandModel {
    CommandModel { program, args, dir: WorkDir::Inherited, watched: false, leads_group: false }
}

/// The command that runs pnpm with `args` in `dir`.
pub open spec fn pnpm_command(
    platform: Platform,
    dir: WorkDir,
    args: Seq<Seq<char>>,
) -> CommandModel {
    if platform == Platform::Windows {
        kept_command("cmd"@, seq!["/C"@, "pnpm"@] + args, dir)
    } else {
        kept_command("pnpm"@, args, dir)
    }
}

/// Runs pnpm with `args` in `dir`.
pub fn make_pnpm_command(platform: Platform, dir: WorkDir, args: Vec<String>) -> (command:
    CommandSpec)
    ensures
        command@ == pnpm_command(platform, dir, texts(args@)),
{
    match platform {
        Platform::Windows => {
            let mut all: Vec<String> = Vec::new();
            all.push(String::from_str("/C"));
            all.push(String::from_str("pnpm"));
            for i in 0..args.len()
                invariant
                    texts(all@) == seq!["/C"@, "pnpm"@] + texts(args@).take(i as int),
            {
                let ghost before = all@;
                all.push(args[i].clone());
                assert(texts(all@) =~= texts(before).push(args@[i as int]@));
                assert(texts(all@) =~= seq!["/C"@, "pnpm"@] + texts(args@).take(i + 1));
            }
            assert(texts(args@).take(args@.len() as int) =~= texts(args@));
            CommandSpec {
                program: String::from_str("cmd"),
                args: all,
                dir,
                watched: true,
                leads_group: true,
            }
        },
        _ => CommandSpec {
            program: String::from_str("pnpm"),
            args,
            dir,
            watched: true,
            leads_group: true,
        },
    }
}

/// The command that ends the tree of the kept process `pid`: by the tree on
/// Windows, and elsewhere by the process group that the process leads, which
/// the system takes as the negative of its number.
pub open spec fn kill_command(platform: Platform, pid: u32) -> CommandModel {
    if platform == Platform::Windows {
        helper_command("taskkill"@, seq!["/PID"@, decimal(pid as nat), "/T"@, "/F"@])
    } else {
        helper_command("kill"@, seq!["-TERM"@, "--"@, "-"@ + decimal(pid as nat)])
    }
}

/// Ends the tree of the kept process `pid`: that process, and those that it
/// started.
pub fn kill_tree(platform: Platform, pid: u32) -> (command: CommandSpec)
    ensures
        command@ == kill_command(platform, pid),
{
    let mut args: Vec<String> = Vec::new();
    let program = match platform {
        Platform::Windows => {
            args.push(String::from_str("/PID"));
            args.push(decimal_string(pid as u64));
            args.push(String::from_str("/T"));
            args.push(String::from_str("/F"));
            String::from_str("taskkill")
        },
        _ => {
            args.push(String::from_str("-TERM"));
            args.push(String::from_str("--"));
            args.push(String::from_str("-").concat(decimal_string(pid as u64).as_str()));
            String::from_str("kill")
        },
    };
    assert(texts(args@) =~= kill_command(platform, pid).args);
    CommandSpec { program, args, dir: WorkDir::Inherited, watched: false, leads_group: false }
}

/// The command that opens `url` in the user's browser.
pub open spec fn browser_command(platform: Platform, url: Seq<char>) -> CommandModel {
    match platform {
        Platform::Windows => helper_command("cmd"@, seq!["/C"@, "start"@, ""@, url]),
        Platform::MacOs => helper_command("open"@, seq![url]),
        Platform::Other => helper_command("xdg-open"@, seq![url]),
    }
}

/// Opens `url` in the user's browser.
pub fn open_in_browser(platform: Platform, url: &str) -> (command: CommandSpec)
    ensures
        command@ == browser_command(platform, url@),
{
    let mut args: Vec<String> = Vec::new();
    let program = match platform {
        Platform::Windows => {
            args.push(String::from_str("/C"));
            args.push(String::from_str("start"));
            args.push(String::from_str(""));
            String::from_str("cmd")
        },
        Platform::MacOs => String::from_str("open"),
        Platform::Other => String::from_str("xdg-open"),
    };
    args.push(String::from_str(url));
    assert(texts(args@) =~= browser_command(platform, url@).args);
    CommandSpec { program, args, dir: WorkDir::Inherited, watched: false, leads_group: false }
}

/// How a process that was waited for ended.
#[derive(Debug)]
pub enum ProcessOutcome {
    /// It could not be run, for the given reason.
    NotStarted(String),
    /// It reported failure.
    Failed,
    Succeeded,
}

/// What the shell is told of an attempt to open `url` in the browser.
pub fn open_external(url: &str, outcome: ProcessOutcome) -> (r: Result<(), String>)
    ensures
        match outcome {
            ProcessOutcome::NotStarted(e) => fails_with(r, "cannot open browser: "@ + e@),
            ProcessOutcome::Failed => fails_with(r, "failed to open "@ + url@),
            ProcessOutcome::Succeeded => r is Ok,
        },
{
    match outcome {
        ProcessOutcome::NotStarted(e) => Err(
            String::from_str("cannot open browser: ").concat(e.as_str()),
        ),
        ProcessOutcome::Failed => Err(String::from_str("failed to open ").concat(url)),
        ProcessOutcome::Succeeded => Ok(()),
    }
}

/// What came of binding a listener to a free port of the loopback interface.
#[derive(Debug)]
pub enum PortOutcome {
    /// No listener could be bound, for the given reason.
    NotBound(String),
    /// The listener does not say which port it got, for the given reason.
    NoAddress(String),
    Bound(u16),
}

/// The port for the next run of the engine.
pub fn pick_free_port(outcome: PortOutcome) -> (port: Result<u16, String>)
    ensures
        match outcome {
            PortOutcome::NotBound(e) => fails_with(port, "cannot reserve a port: "@ + e@),
            PortOutcome::NoAddress(e) => fails_with(port, "cannot read reserved port: "@ + e@),
            PortOutcome::Bound(p) => port == Ok::<u16, String>(p),
        },
{
    match outcome {
        PortOutcome::NotBound(e) => Err(
            String::from_str("cannot reserve a port: ").concat(e.as_str()),
        ),
        PortOutcome::NoAddress(e) => Err(
            String::from_str("cannot read reserved port: ").concat(e.as_str()),
        ),
        PortOutcome::Bound(p) => Ok(p),
    }
}

} // verus!
