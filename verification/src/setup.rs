//! The setup of a checkout that is not yet installed or built.

use vstd::prelude::*;
use crate::process::{
    make_pnpm_command, pnpm_command, CommandModel, CommandSpec, Platform, WorkDir,
};
use crate::text::{decimal, decimal_string, fails_with, opt_text, texts};

verus! {

/// A stage of the setup.
#[derive(Clone, Copy, Debug, PartialEq, Eq, Structural)]
pub enum SetupStage {
    Install,
    Build,
}

/// Tells the shell how the setup goes.
#[derive(Clone, Debug)]
pub struct SetupEvent {
    pub stage: String,
    pub line: Option<String>,
    pub done: bool,
    pub error: Option<String>,
}

/// The content of a `SetupEvent`.
pub ghost struct SetupEventModel {
    pub stage: Seq<char>,
    pub line: Option<Seq<char>>,
    pub done: bool,
    pub error: Option<Seq<char>>,
}

impl View for SetupEvent {
    type V = SetupEventModel;

    open spec fn view(&self) -> SetupEventModel {
        SetupEventModel {
            stage: self.stage@,
            line: opt_text(self.line),
            done: self.done,
            error: opt_text(self.error),
        }
    }
}

/// How a stage is called.
pub open spec fn stage_text(stage: SetupStage) -> Seq<char> {
    match stage {
        SetupStage::Install => "install"@,
        SetupStage::Build => "build"@,
    }
}

pub fn stage_name(stage: SetupStage) -> (name: String)
    ensures
        name@ == stage_text(stage),
{
    match stage {
        SetupStage::Install => String::from_str("install"),
        SetupStage::Build => String::from_str("build"),
    }
}

/// What pnpm is asked to do in a stage.
pub open spec fn stage_words(stage: SetupStage) -> Seq<Seq<char>> {
    match stage {
        SetupStage::Install => seq!["install"@, "--no-frozen-lockfile"@],
        SetupStage::Build => seq!["run"@, "build"@],
    }
}

/// The command of a stage: pnpm, inside the engine directory.
pub open spec fn stage_command(platform: Platform, stage: SetupStage) -> CommandModel {
    pnpm_command(platform, WorkDir::EngineDir, stage_words(stage))
}

/// Prepares the command of a stage.
fn make_stage_command(platform: Platform, stage: SetupStage) -> (command: CommandSpec)
    ensures
        command@ == stage_command(platform, stage),
{
    let mut args: Vec<String> = Vec::new();
    match stage {
        SetupStage::Install => {
            args.push(String::from_str("install"));
            args.push(String::from_str("--no-frozen-lockfile"));
        },
        SetupStage::Build => {
            args.push(String::from_str("run"));
            args.push(String::from_str("build"));
        },
    }
    assert(texts(args@) =~= stage_words(stage));
    make_pnpm_command(platform, WorkDir::EngineDir, args)
}

/// How the process of a stage fared.
#[derive(Debug)]
pub enum StageOutcome {
    /// It could not be started, for the given reason.
    NotStarted(String),
    /// Its output cannot be read.
    NoStdout,
    /// Its error output cannot be read.
    NoStderr,
    /// It was taken away by a stop.
    Disappeared,
    /// It could not be waited for, for the given reason.
    NotWaitedFor(String),
    /// It ended, with or without success.
    Exited { success: bool },
}

/// The line for the log when the process of a stage was started.
pub fn stage_started_line(stage: SetupStage, pid: u32) -> (line: String)
    ensures
        line@ == "[dsh-desktop] pnpm "@ + stage_text(stage) + " started (pid "@ + decimal(
            pid as nat,
        ) + ")"@,
{
    String::from_str("[dsh-desktop] pnpm ").concat(stage_name(stage).as_str()).concat(
        " started (pid ",
    ).concat(decimal_string(pid as u64).as_str()).concat(")")
}

/// Whether a stage succeeded, or why it could not be carried out.
pub fn run_setup_stage(stage: SetupStage, outcome: StageOutcome) -> (r: Result<bool, String>)
    ensures
        match outcome {
            StageOutcome::NotStarted(e) => fails_with(
                r,
                "failed to start pnpm "@ + stage_text(stage) + ": "@ + e@,
            ),
            StageOutcome::NoStdout => fails_with(r, "pnpm stdout unavailable"@),
            StageOutcome::NoStderr => fails_with(r, "pnpm stderr unavailable"@),
            StageOutcome::Disappeared => fails_with(r, "pnpm child disappeared"@),
            StageOutcome::NotWaitedFor(e) => fails_with(
                r,
                "pnpm "@ + stage_text(stage) + " wait failed: "@ + e@,
            ),
            StageOutcome::Exited { success } => r == Ok::<bool, String>(success),
        },
{
    match outcome {
        StageOutcome::NotStarted(e) => Err(
            String::from_str("failed to start pnpm ").concat(stage_name(stage).as_str()).concat(
                ": ",
            ).concat(e.as_str()),
        ),
        StageOutcome::NoStdout => Err(String::from_str("pnpm stdout unavailable")),
        StageOutcome::NoStderr => Err(String::from_str("pnpm stderr unavailable")),
        StageOutcome::Disappeared => Err(String::from_str("pnpm child disappeared")),
        StageOutcome::NotWaitedFor(e) => Err(
            String::from_str("pnpm ").concat(stage_name(stage).as_str()).concat(
                " wait failed: ",
            ).concat(e.as_str()),
        ),
        StageOutcome::Exited { success } => Ok(success),
    }
}

/// How far the setup has come.
#[derive(Debug)]
pub enum SetupProgress {
    Begun,
    /// A stage is over. `result` is the outcome of `run_setup_stage`.
    StageOver { stage: SetupStage, result: Result<bool, String> },
}

/// What the setup does next.
#[derive(Debug)]
pub enum SetupNext {
    /// Run the command of a stage.
    RunStage { stage: SetupStage, command: CommandSpec },
    Finish { success: bool },
}

/// The content of a `SetupNext`.
pub ghost enum SetupNextModel {
    RunStage { stage: SetupStage, command: CommandModel },
    Finish { success: bool },
}

impl View for SetupNext {
    type V = SetupNextModel;

    open spec fn view(&self) -> SetupNextModel {
        match *self {
            SetupNext::RunStage { stage, command } => SetupNextModel::RunStage {
                stage,
                command: command@,
            },
            SetupNext::Finish { success } => SetupNextModel::Finish { success },
        }
    }
}

/// What the shell is told, and what the setup does next.
#[derive(Debug)]
pub struct SetupStep {
    pub event: SetupEvent,
    pub next: SetupNext,
}

/// The event that tells that `stage` begins.
pub open spec fn stage_begins(stage: SetupStage) -> SetupEventModel {
    SetupEventModel { stage: stage_text(stage), line: None, done: false, error: None }
}

/// The event that tells that `stage` failed.
pub open spec fn stage_fails(stage: SetupStage, error: Seq<char>) -> SetupEventModel {
    SetupEventModel { stage: stage_text(stage), line: None, done: false, error: Some(error) }
}

/// Running `stage`, in the engine directory.
pub open spec fn runs_stage(platform: Platform, stage: SetupStage) -> SetupNextModel {
    SetupNextModel::RunStage { stage, command: stage_command(platform, stage) }
}

/// What the setup does after `progress`: it installs, then builds, and ends
/// at the first stage that does not succeed.
pub open spec fn setup_next(platform: Platform, progress: SetupProgress) -> SetupNextModel {
    match progress {
        SetupProgress::Begun => runs_stage(platform, SetupStage::Install),
        SetupProgress::StageOver { stage, result } => match result {
            Ok(true) => match stage {
                SetupStage::Install => runs_stage(platform, SetupStage::Build),
                SetupStage::Build => SetupNextModel::Finish { success: true },
            },
            _ => SetupNextModel::Finish { success: false },
        },
    }
}

/// What the shell is told after `progress`.
pub open spec fn setup_event(progress: SetupProgress) -> SetupEventModel {
    match progress {
        SetupProgress::Begun => stage_begins(SetupStage::Install),
        SetupProgress::StageOver { stage, result } => match result {
            Ok(true) => match stage {
                SetupStage::Install => stage_begins(SetupStage::Build),
                SetupStage::Build => SetupEventModel {
                    stage: "done"@,
                    line: None,
                    done: true,
                    error: None,
                },
            },
            Ok(false) => stage_fails(
                stage,
                "pnpm "@ + stage_text(stage) + " failed; see the log for details"@,
            ),
            Err(e) => stage_fails(stage, e@),
        },
    }
}

fn begin_stage(platform: Platform, stage: SetupStage) -> (step: SetupStep)
    ensures
        step.event@ == stage_begins(stage),
        step.next@ == runs_stage(platform, stage),
{
    SetupStep {
        event: SetupEvent { stage: stage_name(stage), line: None, done: false, error: None },
        next: SetupNext::RunStage { stage, command: make_stage_command(platform, stage) },
    }
}

fn fail_stage(stage: SetupStage, error: String) -> (step: SetupStep)
    ensures
        step.event@ == stage_fails(stage, error@),
        step.next@ == (SetupNextModel::Finish { success: false }),
{
    SetupStep {
        event: SetupEvent { stage: stage_name(stage), line: None, done: false, error: Some(error) },
        next: SetupNext::Finish { success: false },
    }
}

/// Runs `pnpm install`, then `pnpm run build`, inside the engine directory,
/// and tells the shell how it goes.
pub fn run_setup(platform: Platform, progress: SetupProgress) -> (step: SetupStep)
    ensures
        step.event@ == setup_event(progress),
        step.next@ == setup_next(platform, progress),
{
    match progress {
        SetupProgress::Begun => begin_stage(platform, SetupStage::Install),
        SetupProgress::StageOver { stage, result } => match result {
            Ok(true) => match stage {
                SetupStage::Install => begin_stage(platform, SetupStage::Build),
                SetupStage::Build => SetupStep {
                    event: SetupEvent {
                        stage: String::from_str("done"),
                        line: None,
                        done: true,
                        error: None,
                    },
                    next: SetupNext::Finish { success: true },
                },
            },
            Ok(false) => fail_stage(
                stage,
                String::from_str("pnpm ").concat(stage_name(stage).as_str()).concat(
                    " failed; see the log for details",
                ),
            ),
            Err(e) => fail_stage(stage, e),
        },
    }
}

/// The build runs only after a successful install, and the setup succeeds
/// only after a successful build. The shell is told that it is done exactly
/// when it succeeded, and is given an error exactly when it failed.
pub proof fn setup_succeeds_in_order(platform: Platform, progress: SetupProgress)
    ensures
        setup_next(platform, progress) == runs_stage(platform, SetupStage::Build) <==> progress
            == (SetupProgress::StageOver { stage: SetupStage::Install, result: Ok(true) }),
        setup_next(platform, progress) == (SetupNextModel::Finish { success: true }) <==> progress
            == (SetupProgress::StageOver { stage: SetupStage::Build, result: Ok(true) }),
        setup_event(progress).done <==> setup_next(platform, progress) == (
        SetupNextModel::Finish { success: true }),
        setup_event(progress).error is Some <==> setup_next(platform, progress) == (
        SetupNextModel::Finish { success: false }),
{
}

/// Every command of the setup runs inside the engine directory.
pub proof fn setup_runs_inside_the_engine_directory(platform: Platform, progress: SetupProgress)
    ensures
        match setup_next(platform, progress) {
            SetupNextModel::RunStage { command, .. } => command.dir == WorkDir::EngineDir,
            SetupNextModel::Finish { .. } => true,
        },
{
}

/// A setup for which all goes well runs exactly two commands, in order, tells
/// the shell of both, then that it is done, and succeeds.
pub proof fn setup_runs_through(platform: Platform)
    ensures
        ({
            let installed = SetupProgress::StageOver {
                stage: SetupStage::Install,
                result: Ok(true),
            };
            let built = SetupProgress::StageOver { stage: SetupStage::Build, result: Ok(true) };
            &&& setup_next(platform, SetupProgress::Begun) == runs_stage(
                platform,
                SetupStage::Install,
            )
            &&& setup_next(platform, installed) == runs_stage(platform, SetupStage::Build)
            &&& setup_next(platform, built) == (SetupNextModel::Finish { success: true })
            &&& setup_event(SetupProgress::Begun) == stage_begins(SetupStage::Install)
            &&& setup_event(installed) == stage_begins(SetupStage::Build)
            &&& setup_event(built) == (SetupEventModel {
                stage: "done"@,
                line: None,
                done: true,
                error: None,
            })
        }),
{
}

} // verus!
