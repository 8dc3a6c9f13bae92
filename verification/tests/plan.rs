use dsh_desktop::plan::{engine_command, node_program, resolve_node, resolve_plan};
use dsh_desktop::process::{
    kill_tree, make_pnpm_command, open_external, open_in_browser, pick_free_port, Platform,
    PortOutcome, ProcessOutcome, WorkDir,
};
use dsh_desktop::settings::Settings;
use dsh_desktop::source::{
    dev_candidates, engine_dir, find_dev_checkout, is_checkout, probe_is_dir, probe_path,
    setup_needed, Base, Candidate, Checkout, CheckoutFacts, EngineDir, Probe,
};

fn facts(cli_source: bool, modules: bool, cli_build: bool) -> CheckoutFacts {
    CheckoutFacts { cli_source, modules, cli_build }
}

fn checkout(facts: CheckoutFacts) -> Checkout {
    Checkout {
        dir: "/src/dsh".to_string(),
        cli_bin: "/src/dsh/apps/cli/lib/bin.js".to_string(),
        facts,
    }
}

fn node() -> Result<String, String> {
    Ok("node".to_string())
}

fn config() -> Result<String, String> {
    Ok("/config".to_string())
}

#[test]
fn is_checkout_requires_cli_sources() {
    assert!(!is_checkout(&facts(false, false, false)));
    assert!(is_checkout(&facts(true, false, false)));
}

#[test]
fn probes_look_below_the_engine_directory() {
    assert_eq!(probe_path(Probe::CliSource).join("/"), "apps/cli/src/bin.ts");
    assert_eq!(probe_path(Probe::Modules).join("/"), "node_modules");
    assert_eq!(probe_path(Probe::CliBuild).join("/"), "apps/cli/lib/bin.js");
    assert!(probe_is_dir(Probe::Modules));
    assert!(!probe_is_dir(Probe::CliSource));
    assert!(!probe_is_dir(Probe::CliBuild));
}

#[test]
fn a_ready_checkout_is_run_with_node() {
    let plan = resolve_plan(
        8080,
        Ok("/usr/bin/node".to_string()),
        Some(checkout(facts(true, true, true))),
        Err("unused".to_string()),
        Platform::Windows,
    )
    .unwrap();
    assert_eq!(plan.mode, "checkout: /src/dsh");
    assert_eq!(plan.program, "/usr/bin/node");
    assert_eq!(
        plan.args,
        ["/src/dsh/apps/cli/lib/bin.js", "web", "--host", "127.0.0.1", "--port", "8080"]
    );
    assert_eq!(plan.cwd, "/src/dsh");
    assert_eq!(plan.dir, WorkDir::EngineDir);
    let command = engine_command(&plan);
    assert_eq!(command.program, plan.program);
    assert_eq!(command.args, plan.args);
    assert_eq!(command.dir, WorkDir::EngineDir);
    assert!(command.watched && command.leads_group);
}

#[test]
fn a_chosen_directory_is_never_passed_over() {
    for modules in [false, true] {
        for cli_build in [false, true] {
            let c = checkout(facts(false, modules, cli_build));
            assert_eq!(
                resolve_plan(1, node(), Some(c), config(), Platform::Other).unwrap_err(),
                "/src/dsh is not a deepseek-harness checkout (missing apps/cli/src/bin.ts)"
            );
        }
    }
    for (modules, cli_build) in [(false, false), (true, false), (false, true)] {
        let c = checkout(facts(true, modules, cli_build));
        assert_eq!(
            resolve_plan(1, node(), Some(c), config(), Platform::Other).unwrap_err(),
            "The engine checkout at /src/dsh is not ready: it needs `pnpm install` and `pnpm run build`. Run the setup action to prepare it."
        );
    }
}

#[test]
fn the_published_package_is_the_fallback() {
    let plan = resolve_plan(1, node(), None, config(), Platform::Other).unwrap();
    assert_eq!(plan.mode, "npx @deepseek-ai/dsh (published package)");
    assert_eq!(plan.program, "npx");
    assert_eq!(
        plan.args,
        ["--yes", "@deepseek-ai/dsh", "web", "--host", "127.0.0.1", "--port", "1"]
    );
    assert_eq!(plan.cwd, "/config");
    assert_eq!(plan.dir, WorkDir::ConfigDir);
    assert_eq!(engine_command(&plan).dir, WorkDir::ConfigDir);
    let plan = resolve_plan(65535, node(), None, config(), Platform::Windows).unwrap();
    assert_eq!(plan.program, "cmd");
    assert_eq!(
        plan.args,
        ["/C", "npx", "--yes", "@deepseek-ai/dsh", "web", "--host", "127.0.0.1", "--port", "65535"]
    );
    let mac = resolve_plan(1, node(), None, config(), Platform::MacOs).unwrap();
    assert_eq!(mac.program, "npx");
}

#[test]
fn plan_errors_come_in_order() {
    let none = || Err("no dir".to_string());
    assert_eq!(
        resolve_plan(1, Err("no node".to_string()), None, none(), Platform::Other).unwrap_err(),
        "no node"
    );
    assert_eq!(
        resolve_plan(1, node(), None, none(), Platform::Other).unwrap_err(),
        "cannot resolve app config dir: no dir"
    );
}

#[test]
fn node_is_taken_from_the_environment() {
    assert_eq!(node_program(None), "node");
    assert_eq!(node_program(Some(" ".to_string())), "node");
    assert_eq!(node_program(Some("/opt/node".to_string())), "/opt/node");
    let program = || "/opt/node".to_string();
    assert_eq!(resolve_node(program(), ProcessOutcome::Succeeded), Ok(program()));
    assert_eq!(
        resolve_node(program(), ProcessOutcome::Failed),
        Err("node check failed for /opt/node".to_string())
    );
    assert_eq!(
        resolve_node(program(), ProcessOutcome::NotStarted("gone".to_string())),
        Err("Node.js not found (/opt/node: gone). Install Node.js 22+ and ensure it is on PATH, or set DSH_NODE_BIN.".to_string())
    );
}

#[test]
fn setup_is_offered_for_an_unbuilt_checkout() {
    assert!(setup_needed(&Some(checkout(facts(true, true, false)))));
    assert!(setup_needed(&Some(checkout(facts(true, false, false)))));
    assert!(!setup_needed(&Some(checkout(facts(true, false, true)))));
    assert!(!setup_needed(&Some(checkout(facts(false, true, false)))));
    assert!(!setup_needed(&None));
}

fn settings(dir: Option<&str>) -> Settings {
    Settings { engine_dir: dir.map(|d| d.to_string()) }
}

#[test]
fn engine_directories_are_looked_for_in_order() {
    let env = || Some("/env".to_string());
    assert!(matches!(
        engine_dir(&settings(Some("/saved")), env(), Some(0)),
        Some(EngineDir::Saved(d)) if d == "/saved"
    ));
    assert!(matches!(
        engine_dir(&settings(Some(" ")), env(), Some(0)),
        Some(EngineDir::Environment(d)) if d == "/env"
    ));
    assert!(matches!(
        engine_dir(&settings(None), Some("\t".to_string()), Some(3)),
        Some(EngineDir::Nearby(3))
    ));
    assert!(engine_dir(&settings(None), None, None).is_none());
}

#[test]
fn nearby_checkouts_are_looked_for_nearest_first() {
    let cwd = |levels_up: u8| Candidate { base: Base::WorkingDir, levels_up };
    let exe = |levels_up: u8| Candidate { base: Base::BinaryDir, levels_up };
    assert_eq!(dev_candidates(true, true), [cwd(0), cwd(1), exe(0), exe(1), exe(2), exe(3)]);
    assert_eq!(dev_candidates(true, false), [cwd(0), cwd(1)]);
    assert_eq!(dev_candidates(false, true), [exe(0), exe(1), exe(2), exe(3)]);
    assert!(dev_candidates(false, false).is_empty());
    let no = facts(false, true, true);
    let yes = facts(true, false, false);
    assert_eq!(find_dev_checkout(&vec![no, yes, yes]), Some(1));
    assert_eq!(find_dev_checkout(&vec![no, no]), None);
    assert_eq!(find_dev_checkout(&vec![]), None);
}

#[test]
fn pnpm_runs_through_the_command_interpreter_on_windows() {
    let args = || vec!["run".to_string(), "build".to_string()];
    let command = make_pnpm_command(Platform::Windows, WorkDir::EngineDir, args());
    assert_eq!(command.program, "cmd");
    assert_eq!(command.args, ["/C", "pnpm", "run", "build"]);
    assert_eq!(command.dir, WorkDir::EngineDir);
    assert!(command.watched && command.leads_group);
    let command = make_pnpm_command(Platform::Other, WorkDir::ConfigDir, args());
    assert_eq!(command.program, "pnpm");
    assert_eq!(command.args, ["run", "build"]);
    assert_eq!(command.dir, WorkDir::ConfigDir);
    assert!(command.watched && command.leads_group);
}

#[test]
fn process_trees_are_killed_by_the_system() {
    let command = kill_tree(Platform::Windows, 4711);
    assert_eq!(command.program, "taskkill");
    assert_eq!(command.args, ["/PID", "4711", "/T", "/F"]);
    let command = kill_tree(Platform::Other, 4711);
    assert_eq!(command.program, "kill");
    assert_eq!(command.args, ["-TERM", "--", "-4711"]);
    assert_eq!(command.dir, WorkDir::Inherited);
    assert!(!command.watched && !command.leads_group);
    assert_eq!(kill_tree(Platform::MacOs, 1).args, ["-TERM", "--", "-1"]);
}

#[test]
fn browsers_are_opened_by_the_system() {
    let url = "http://127.0.0.1:1";
    let command = open_in_browser(Platform::Windows, url);
    assert_eq!(command.program, "cmd");
    assert_eq!(command.args, ["/C", "start", "", url]);
    assert_eq!(command.dir, WorkDir::Inherited);
    assert!(!command.watched && !command.leads_group);
    let command = open_in_browser(Platform::MacOs, url);
    assert_eq!((command.program.as_str(), command.args.len()), ("open", 1));
    assert_eq!(command.args, [url]);
    let command = open_in_browser(Platform::Other, url);
    assert_eq!(command.program, "xdg-open");
    assert_eq!(command.args, [url]);
    assert_eq!(open_external(url, ProcessOutcome::Succeeded), Ok(()));
    assert_eq!(
        open_external(url, ProcessOutcome::Failed),
        Err("failed to open http://127.0.0.1:1".to_string())
    );
    assert_eq!(
        open_external(url, ProcessOutcome::NotStarted("none".to_string())),
        Err("cannot open browser: none".to_string())
    );
}

#[test]
fn ports_are_reserved_or_refused() {
    assert_eq!(pick_free_port(PortOutcome::Bound(4000)), Ok(4000));
    assert_eq!(
        pick_free_port(PortOutcome::NotBound("busy".to_string())),
        Err("cannot reserve a port: busy".to_string())
    );
    assert_eq!(
        pick_free_port(PortOutcome::NoAddress("odd".to_string())),
        Err("cannot read reserved port: odd".to_string())
    );
}
