//! How to run the engine on this machine.

use vstd::prelude::*;
use crate::process::{kept_command, CommandSpec, Platform, ProcessOutcome, WorkDir};
use crate::settings::{config_dir_error, config_dir_message};
use crate::source::{is_checkout, Checkout};
use crate::text::{copy_texts, decimal, decimal_string, fails_with, keep_non_blank, non_blank, opt_text, texts};

verus! {

/// The environment variable that names the node binary.
pub const NODE_BIN_VAR: &'static str = "DSH_NODE_BIN";

/// The node binary to try: the one in the environment unless that is blank.
pub fn node_program(environment: Option<String>) -> (program: String)
    ensures
        program@ == match non_blank(opt_text(environment)) {
            Some(p) => p,
            None => "node"@,
        },
{
    match keep_non_blank(environment) {
        Some(p) => p,
        None => String::from_str("node"),
    }
}

/// The node binary, once `<program> --version` was run, or why it cannot be
/// used.
pub fn resolve_node(program: String, outcome: ProcessOutcome) -> (node: Result<String, String>)
    ensures
        match outcome {
            ProcessOutcome::Succeeded => node == Ok::<String, String>(program),
            ProcessOutcome::Failed => fails_with(node, "node check failed for "@ + program@),
            ProcessOutcome::NotStarted(e) => fails_with(
                node,
                "Node.js not found ("@ + program@ + ": "@ + e@
                    + "). Install Node.js 22+ and ensure it is on PATH, or set DSH_NODE_BIN."@,
            ),
        },
{
    match outcome {
        ProcessOutcome::Succeeded => Ok(program),
        ProcessOutcome::Failed => Err(
            String::from_str("node check failed for ").concat(program.as_str()),
        ),
        ProcessOutcome::NotStarted(e) => Err(
            String::from_str("Node.js not found (").concat(program.as_str()).concat(": ").concat(
                e.as_str(),
            ).concat(
                "). Install Node.js 22+ and ensure it is on PATH, or set DSH_NODE_BIN.",
            ),
        ),
    }
}

/// How to run the engine on this machine, resolved per start.
#[derive(Debug)]
pub struct EnginePlan {
    pub mode: String,
    pub program: String,
    pub args: Vec<String>,
    /// The directory that the engine runs in.
    pub dir: WorkDir,
    /// That directory, as it is shown.
    pub cwd: String,
}

/// The content of an `EnginePlan`.
pub ghost struct PlanModel {
    pub mode: Seq<char>,
    pub program: Seq<char>,
    pub args: Seq<Seq<char>>,
    pub dir: WorkDir,
    pub cwd: Seq<char>,
}

impl View for EnginePlan {
    type V = PlanModel;

    open spec fn view(&self) -> PlanModel {
        PlanModel {
            mode: self.mode@,
            program: self.program@,
            args: texts(self.args@),
            dir: self.dir,
            cwd: self.cwd@,
        }
    }
}

/// The process that runs the engine as `plan` says, in the plan's directory.
pub fn engine_command(plan: &EnginePlan) -> (command: CommandSpec)
    ensures
        command@ == kept_command(plan@.program, plan@.args, plan@.dir),
{
    let args = copy_texts(&plan.args, 0);
    assert(args@ =~= plan.args@);
    CommandSpec {
        program: plan.program.clone(),
        args,
        dir: plan.dir,
        watched: true,
        leads_group: true,
    }
}

/// The arguments that make the engine serve its web UI on the loopback
/// interface, on the reserved port.
pub open spec fn serve_args(port: u16) -> Seq<Seq<char>> {
    seq!["web"@, "--host"@, "127.0.0.1"@, "--port"@, decimal(port as nat)]
}

/// Appends the arguments that make the engine serve its web UI on `port`.
fn push_serve_args(args: &mut Vec<String>, port: u16)
    ensures
        texts(final(args)@) == texts(old(args)@) + serve_args(port),
{
    args.push(String::from_str("web"));
    args.push(String::from_str("--host"));
    args.push(String::from_str("127.0.0.1"));
    args.push(String::from_str("--port"));
    args.push(decimal_string(port as u64));
    assert(texts(args@) =~= texts(old(args)@) + serve_args(port));
}

/// The message for an engine directory that is no checkout.
pub open spec fn not_a_checkout_message(dir: Seq<char>) -> Seq<char> {
    dir + " is not a deepseek-harness checkout (missing apps/cli/src/bin.ts)"@
}

pub fn not_a_checkout(dir: &str) -> (message: String)
    ensures
        message@ == not_a_checkout_message(dir@),
{
    String::from_str(dir).concat(
        " is not a deepseek-harness checkout (missing apps/cli/src/bin.ts)",
    )
}

/// The message for a checkout that is not installed or not built.
pub open spec fn not_ready_message(dir: Seq<char>) -> Seq<char> {
    "The engine checkout at "@ + dir
        + " is not ready: it needs `pnpm install` and `pnpm run build`. Run the setup action to prepare it."@
}

/// The plan that runs a built checkout with the node binary `node`.
pub open spec fn checkout_plan(port: u16, node: Seq<char>, checkout: Checkout) -> PlanModel {
    PlanModel {
        mode: "checkout: "@ + checkout.dir@,
        program: node,
        args: seq![checkout.cli_bin@] + serve_args(port),
        dir: WorkDir::EngineDir,
        cwd: checkout.dir@,
    }
}

/// The plan that runs the published package.
pub open spec fn package_plan(port: u16, config_dir: Seq<char>, platform: Platform) -> PlanModel {
    PlanModel {
        mode: "npx @deepseek-ai/dsh (published package)"@,
        program: if platform == Platform::Windows { "cmd"@ } else { "npx"@ },
        args: (if platform == Platform::Windows {
            seq!["/C"@, "npx"@, "--yes"@, "@deepseek-ai/dsh"@]
        } else {
            seq!["--yes"@, "@deepseek-ai/dsh"@]
        }) + serve_args(port),
        dir: WorkDir::ConfigDir,
        cwd: config_dir,
    }
}

/// The plan for a start on `port`, or the reason why there is none. A
/// directory that was chosen for the engine is used or refused: the published
/// package is only for when there is no such directory.
pub open spec fn planned(
    port: u16,
    node: Result<String, String>,
    checkout: Option<Checkout>,
    config_dir: Result<String, String>,
    platform: Platform,
) -> Result<PlanModel, Seq<char>> {
    match (node, checkout, config_dir) {
        (Err(e), _, _) => Err(e@),
        (Ok(node), Some(c), _) => if !c.facts.checkout() {
            Err(not_a_checkout_message(c.dir@))
        } else if !c.facts.ready() {
            Err(not_ready_message(c.dir@))
        } else {
            Ok(checkout_plan(port, node@, c))
        },
        (Ok(_), None, Err(e)) => Err(config_dir_message(e@)),
        (Ok(_), None, Ok(dir)) => Ok(package_plan(port, dir@, platform)),
    }
}

/// Decides how to run the engine on `port`. `node` is the outcome of
/// `resolve_node`, `checkout` the directory that `engine_dir` chose, and
/// `config_dir` the app config directory or the reason why it is unknown.
pub fn resolve_plan(
    port: u16,
    node: Result<String, String>,
    checkout: Option<Checkout>,
    config_dir: Result<String, String>,
    platform: Platform,
) -> (plan: Result<EnginePlan, String>)
    ensures
        match plan {
            Ok(p) => planned(port, node, checkout, config_dir, platform) == Ok::<
                PlanModel,
                Seq<char>,
            >(p@),
            Err(e) => planned(port, node, checkout, config_dir, platform) == Err::<
                PlanModel,
                Seq<char>,
            >(e@),
        },
{
    let node = match node {
        Ok(node) => node,
        Err(e) => {
            return Err(e);
        },
    };
    match checkout {
        Some(c) => {
            if !is_checkout(&c.facts) {
                return Err(not_a_checkout(c.dir.as_str()));
            }
            if !c.facts.modules || !c.facts.cli_build {
                return Err(
                    String::from_str("The engine checkout at ").concat(c.dir.as_str()).concat(
                        " is not ready: it needs `pnpm install` and `pnpm run build`. Run the setup action to prepare it.",
                    ),
                );
            }
            let ghost cli_bin = c.cli_bin@;
            let mut args: Vec<String> = Vec::new();
            args.push(c.cli_bin);
            assert(texts(args@) =~= seq![cli_bin]);
            push_serve_args(&mut args, port);
            let mode = String::from_str("checkout: ").concat(c.dir.as_str());
            Ok(EnginePlan { mode, program: node, args, dir: WorkDir::EngineDir, cwd: c.dir })
        },
        None => {
            let cwd = match config_dir {
                Ok(dir) => dir,
                Err(e) => {
                    return Err(config_dir_error(e.as_str()));
                },
            };
            let mode = String::from_str("npx @deepseek-ai/dsh (published package)");
            let mut args: Vec<String> = Vec::new();
            let windows = match platform {
                Platform::Windows => true,
                _ => false,
            };
            if windows {
                args.push(String::from_str("/C"));
                args.push(String::from_str("npx"));
            }
            args.push(String::from_str("--yes"));
            args.push(String::from_str("@deepseek-ai/dsh"));
            assert(texts(args@) =~= if windows {
                seq!["/C"@, "npx"@, "--yes"@, "@deepseek-ai/dsh"@]
            } else {
                seq!["--yes"@, "@deepseek-ai/dsh"@]
            });
            push_serve_args(&mut args, port);
            let program = if windows {
                String::from_str("cmd")
            } else {
                String::from_str("npx")
            };
            Ok(EnginePlan { mode, program, args, dir: WorkDir::ConfigDir, cwd })
        },
    }
}

} // verus!
