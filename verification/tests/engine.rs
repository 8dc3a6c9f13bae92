use dsh_desktop::engine::{
    ChildPoll, EngineManager, HealthAction, HealthEvent, Restart, SetupAction, SetupRequest,
    SpawnOutcome, StartAction, StartEvent, StartReply, Survey, WaitAction, WaitEvent, LOG_CAP,
};
use dsh_desktop::plan::EnginePlan;
use dsh_desktop::process::{Platform, PortOutcome, WorkDir};
use dsh_desktop::settings::{set_engine_dir, SaveOutcome, Settings};
use dsh_desktop::source::{Checkout, CheckoutFacts};
use dsh_desktop::state::{view_of, EngineInner, Navigation, Phase};

const URL: &str = "http://127.0.0.1:4000";

fn manager() -> EngineManager {
    EngineManager::new(Settings { engine_dir: None }, Some("tauri://localhost".to_string()))
}

fn checkout(cli_source: bool, cli_build: bool) -> Checkout {
    Checkout {
        dir: "/src".to_string(),
        cli_bin: "/src/apps/cli/lib/bin.js".to_string(),
        facts: CheckoutFacts { cli_source, modules: true, cli_build },
    }
}

fn survey(checkout: Option<Checkout>) -> Survey {
    Survey {
        node: Ok("node".to_string()),
        checkout,
        config_dir: Ok("/config".to_string()),
        platform: Platform::Other,
    }
}

fn plan() -> EnginePlan {
    EnginePlan {
        mode: "checkout: \u{1b}[1m/src".to_string(),
        program: "node".to_string(),
        args: Vec::new(),
        dir: WorkDir::EngineDir,
        cwd: "/src".to_string(),
    }
}

fn spawn(m: &mut EngineManager, outcome: SpawnOutcome) -> StartReply {
    m.start(StartEvent::Spawned { port: 4000, plan: plan(), outcome })
}

fn running(m: &mut EngineManager) -> u64 {
    match spawn(m, SpawnOutcome::Running { pid: 9 }).action {
        StartAction::Watch { port: 4000, generation } => generation,
        _ => panic!("not running"),
    }
}

fn failed(reply: &StartReply) -> String {
    match &reply.action {
        StartAction::Finish(Err(e)) => e.clone(),
        _ => panic!("did not fail"),
    }
}

#[test]
fn a_new_manager_is_idle() {
    let m = manager();
    let v = m.snapshot();
    assert_eq!(v.phase, Phase::Idle);
    assert_eq!((v.url, v.port, v.error, v.exit_code, v.mode), (None, None, None, None, None));
    assert_eq!((v.setup_needed, v.setup_active, v.log_len), (false, false, 0));
    assert_eq!(m.navigate_splash(), Some("tauri://localhost".to_string()));
    assert_eq!(EngineManager::new(Settings::default(), None).navigate_splash(), None);
    assert_eq!(Phase::default(), Phase::Idle);
}

#[test]
fn a_view_shows_all_of_the_state() {
    let inner = EngineInner {
        phase: Phase::Error,
        url: Some("u".to_string()),
        port: Some(1),
        error: Some("e".to_string()),
        exit_code: Some(-2),
        mode: Some("m".to_string()),
        setup_needed: true,
        setup_active: false,
    };
    let v = view_of(&inner, 5);
    assert_eq!(v.phase, Phase::Error);
    assert_eq!(v.url.as_deref(), Some("u"));
    assert_eq!(v.port, Some(1));
    assert_eq!(v.error.as_deref(), Some("e"));
    assert_eq!(v.exit_code, Some(-2));
    assert_eq!(v.mode.as_deref(), Some("m"));
    assert_eq!((v.setup_needed, v.setup_active, v.log_len), (true, false, 5));
}

#[test]
fn a_start_runs_through() {
    let mut m = manager();
    assert!(matches!(m.start(StartEvent::Requested).action, StartAction::PickPort));
    let reply = m.start(StartEvent::PortPicked(PortOutcome::Bound(4000)));
    assert!(matches!(reply.action, StartAction::Survey { port: 4000 }));
    let reply = m.start(StartEvent::Surveyed { port: 4000, survey: survey(None) });
    assert!(reply.debug.is_none() && reply.transition.is_none() && reply.logged.is_none());
    let plan = match reply.action {
        StartAction::Spawn { port: 4000, plan } => plan,
        _ => panic!("no plan"),
    };
    assert_eq!(plan.program, "npx");
    assert_eq!(m.snapshot().phase, Phase::Idle);
    let outcome = SpawnOutcome::Running { pid: 77 };
    let reply = m.start(StartEvent::Spawned { port: 4000, plan, outcome });
    assert!(matches!(reply.action, StartAction::Watch { port: 4000, generation: 1 }));
    assert_eq!(
        reply.logged.unwrap(),
        "[dsh-desktop] starting engine (pid 77, port 4000): npx @deepseek-ai/dsh (published package) (cwd /config)"
    );
    let t = reply.transition.unwrap();
    assert_eq!(t.view.phase, Phase::Starting);
    assert_eq!(t.view.port, Some(4000));
    assert_eq!(t.view.log_len, 0);
    assert!(matches!(t.navigation, Navigation::Stay));
    assert_eq!(m.snapshot().log_len, 1);
    let reply = m.read_line("dsh web: \u{1b}[1mhttp://127.0.0.1:4000\u{1b}[0m", 4000, 1);
    assert_eq!(reply.logged, "dsh web: http://127.0.0.1:4000");
    let ready = reply.ready.unwrap();
    assert_eq!(ready.debug, "[dsh-desktop] engine ready at http://127.0.0.1:4000");
    assert_eq!(ready.url, URL);
    assert_eq!(ready.view.phase, Phase::Ready);
    assert_eq!(ready.view.url.as_deref(), Some(URL));
    assert_eq!(ready.view.log_len, 2);
}

#[test]
fn a_start_without_a_port_leaves_the_state() {
    let mut m = manager();
    let reply = m.start(StartEvent::PortPicked(PortOutcome::NotBound("busy".to_string())));
    assert_eq!(failed(&reply), "cannot reserve a port: busy");
    assert_eq!(
        reply.debug.as_deref(),
        Some("[dsh-desktop] start error: cannot reserve a port: busy")
    );
    assert!(reply.transition.is_none());
    assert_eq!(m.snapshot().phase, Phase::Idle);
    let reply = m.start(StartEvent::PortPicked(PortOutcome::NoAddress("odd".to_string())));
    assert_eq!(failed(&reply), "cannot read reserved port: odd");
}

#[test]
fn a_start_without_a_plan_is_an_error() {
    let mut m = manager();
    let survey = survey(Some(checkout(true, false)));
    let reply = m.start(StartEvent::Surveyed { port: 1, survey });
    let e = failed(&reply);
    assert!(e.starts_with("The engine checkout at /src is not ready"));
    assert_eq!(reply.debug, Some(format!("[dsh-desktop] resolve_plan error: {e}")));
    let v = reply.transition.unwrap().view;
    assert_eq!(v.phase, Phase::Error);
    assert_eq!(v.error, Some(e));
    assert!(v.setup_needed);
    assert!(matches!(m.start(StartEvent::Requested).action, StartAction::PickPort));
}

#[test]
fn a_process_that_does_not_start_is_an_error() {
    let cases = [
        (SpawnOutcome::NotStarted("gone".to_string()), "failed to start engine (node): gone"),
        (SpawnOutcome::NoStdout, "engine stdout unavailable"),
        (SpawnOutcome::NoStderr, "engine stderr unavailable"),
    ];
    for (outcome, message) in cases {
        let mut m = manager();
        let reply = spawn(&mut m, outcome);
        assert_eq!(failed(&reply), message);
        assert_eq!(reply.debug, Some(format!("[dsh-desktop] spawn error: {message}")));
        let v = reply.transition.unwrap().view;
        assert_eq!(v.phase, Phase::Error);
        assert_eq!(v.error.as_deref(), Some(message));
        assert!(!v.setup_needed);
    }
}

#[test]
fn a_start_while_running_is_met() {
    let mut m = manager();
    let generation = running(&mut m);
    assert!(matches!(m.start(StartEvent::Requested).action, StartAction::Finish(Ok(()))));
    assert!(m.mark_ready(URL.to_string(), generation).is_some());
    assert!(matches!(m.start(StartEvent::Requested).action, StartAction::Finish(Ok(()))));
}

#[test]
fn an_engine_becomes_ready_once() {
    let mut m = manager();
    let generation = running(&mut m);
    assert!(m.mark_ready("http://127.0.0.1:1".to_string(), generation + 1).is_none());
    assert_eq!(m.snapshot().phase, Phase::Starting);
    assert!(m.mark_ready(URL.to_string(), generation).is_some());
    assert!(m.mark_ready("http://127.0.0.1:1".to_string(), generation).is_none());
    assert!(m.read_line("http://127.0.0.1:4000", 4000, generation).ready.is_none());
    assert_eq!(m.snapshot().url.as_deref(), Some(URL));
    assert!(m.read_line("http://127.0.0.1:4001", 4000, generation).ready.is_none());
}

#[test]
fn an_exit_before_ready_is_an_error() {
    for (code, text) in [(Some(-1), "-1"), (Some(137), "137"), (None, "unknown")] {
        let mut m = manager();
        let generation = running(&mut m);
        let t = m.on_child_exit(generation, code).unwrap();
        assert!(matches!(t.navigation, Navigation::Splash));
        assert_eq!(t.view.phase, Phase::Error);
        assert_eq!(t.view.exit_code, code);
        assert_eq!(
            t.view.error,
            Some(format!(
                "The engine exited before the Web UI became ready (code {text}). Check the log for details."
            ))
        );
        assert!(m.on_child_exit(generation, code).is_none());
    }
}

#[test]
fn an_exit_after_ready_is_a_stop() {
    let mut m = manager();
    let generation = running(&mut m);
    m.mark_ready(URL.to_string(), generation);
    let t = m.on_child_exit(generation, Some(0)).unwrap();
    assert!(matches!(t.navigation, Navigation::Splash));
    assert_eq!(t.view.phase, Phase::Stopped);
    assert_eq!((t.view.exit_code, t.view.error), (Some(0), None));
    assert_eq!(t.view.url.as_deref(), Some(URL));
}

#[test]
fn a_stopped_run_is_stale() {
    let mut m = manager();
    let generation = running(&mut m);
    m.mark_ready(URL.to_string(), generation);
    m.stop();
    assert_eq!(m.snapshot().phase, Phase::Ready);
    assert!(m.on_child_exit(generation, Some(1)).is_none());
    let t = m.finish_stop();
    assert!(matches!(t.navigation, Navigation::Splash));
    assert_eq!(t.view.phase, Phase::Stopped);
    assert_eq!((t.view.exit_code, t.view.error), (None, None));
    assert!(matches!(m.finish_stop().navigation, Navigation::Stay));
    assert!(matches!(m.start(StartEvent::Requested).action, StartAction::PickPort));
    let next = running(&mut m);
    assert_eq!(next, generation + 2);
    assert!(m.mark_ready(URL.to_string(), generation).is_none());
    assert!(m.read_line("http://127.0.0.1:4000", 4000, generation).ready.is_none());
    assert_eq!(m.snapshot().phase, Phase::Starting);
    assert!(m.mark_ready(URL.to_string(), next).is_some());
}

#[test]
fn a_stop_keeps_an_error() {
    let mut m = manager();
    spawn(&mut m, SpawnOutcome::NoStdout);
    m.stop();
    let v = m.finish_stop().view;
    assert_eq!(v.phase, Phase::Error);
    assert_eq!(v.error.as_deref(), Some("engine stdout unavailable"));
}

#[test]
fn a_failed_start_out_of_ready_returns_to_the_splash() {
    let mut m = manager();
    let generation = running(&mut m);
    m.mark_ready(URL.to_string(), generation);
    let t = spawn(&mut m, SpawnOutcome::NoStderr).transition.unwrap();
    assert!(matches!(t.navigation, Navigation::Splash));
}

fn refused(m: &mut EngineManager, request: SetupRequest) -> String {
    let reply = m.setup_engine(request);
    assert!(reply.transition.is_none());
    match reply.action {
        SetupAction::Refuse(e) => e,
        _ => panic!("not refused"),
    }
}

#[test]
fn setup_and_engine_exclude_each_other() {
    let mut m = manager();
    let generation = running(&mut m);
    let busy = "the engine is running; stop it before running setup";
    assert_eq!(refused(&mut m, SetupRequest::Requested), busy);
    m.mark_ready(URL.to_string(), generation);
    assert_eq!(refused(&mut m, SetupRequest::Requested), busy);
    m.stop();
    m.finish_stop();
    assert!(matches!(m.setup_engine(SetupRequest::Requested).action, SetupAction::Locate));
    assert_eq!(refused(&mut m, SetupRequest::Requested), "engine setup is already running");
    let reply = m.start(StartEvent::Requested);
    assert_eq!(failed(&reply), "engine setup is running; wait for it to finish");
    m.stop();
    assert!(matches!(m.start(StartEvent::Requested).action, StartAction::PickPort));
}

#[test]
fn a_setup_keeps_starts_out_whatever_happens() {
    let mut m = manager();
    m.setup_engine(SetupRequest::Requested);
    m.setup_engine(SetupRequest::Located { checkout: Some(checkout(true, false)) });
    m.finish_stop();
    m.push_log("line");
    m.on_child_exit(0, Some(1));
    m.mark_ready(URL.to_string(), 0);
    let reply = m.start(StartEvent::Requested);
    assert_eq!(failed(&reply), "engine setup is running; wait for it to finish");
    assert_eq!(refused(&mut m, SetupRequest::Requested), "engine setup is already running");
}

#[test]
fn setup_needs_a_checkout() {
    let mut m = manager();
    assert!(matches!(m.setup_engine(SetupRequest::Requested).action, SetupAction::Locate));
    assert_eq!(
        refused(&mut m, SetupRequest::Located { checkout: None }),
        "no engine checkout configured: set an engine directory in the shell settings first"
    );
    assert!(matches!(m.setup_engine(SetupRequest::Requested).action, SetupAction::Locate));
    assert_eq!(
        refused(&mut m, SetupRequest::Located { checkout: Some(checkout(false, false)) }),
        "/src is not a deepseek-harness checkout (missing apps/cli/src/bin.ts)"
    );
    assert!(matches!(m.start(StartEvent::Requested).action, StartAction::PickPort));
}

fn setting_up() -> EngineManager {
    let mut m = manager();
    let survey = survey(Some(checkout(true, false)));
    m.start(StartEvent::Surveyed { port: 1, survey });
    m.setup_engine(SetupRequest::Requested);
    let reply = m.setup_engine(SetupRequest::Located { checkout: Some(checkout(true, false)) });
    assert!(matches!(reply.action, SetupAction::Run));
    let v = reply.transition.unwrap().view;
    assert_eq!(v.phase, Phase::Error);
    assert_eq!((v.setup_active, v.setup_needed, v.error), (true, true, None));
    m
}

#[test]
fn a_successful_setup_starts_the_engine() {
    let mut m = setting_up();
    let reply = m.finish_setup(true);
    assert!(reply.start);
    let v = reply.transition.view;
    assert_eq!(v.phase, Phase::Idle);
    assert_eq!((v.setup_active, v.setup_needed, v.error), (false, false, None));
    assert!(matches!(m.start(StartEvent::Requested).action, StartAction::PickPort));
}

#[test]
fn a_failed_setup_is_offered_again() {
    let mut m = setting_up();
    let reply = m.finish_setup(false);
    assert!(!reply.start);
    let v = reply.transition.view;
    assert_eq!(v.phase, Phase::Error);
    assert_eq!((v.setup_active, v.setup_needed), (false, true));
    assert!(matches!(m.setup_engine(SetupRequest::Requested).action, SetupAction::Locate));
}

#[test]
fn the_log_holds_the_latest_lines() {
    let mut m = manager();
    for i in 0..LOG_CAP + 100 {
        let clean = m.push_log(&format!("\u{1b}[1m{i}"));
        assert_eq!(clean, i.to_string());
        assert_eq!(m.snapshot().log_len, (i + 1).min(LOG_CAP));
    }
    assert_eq!(LOG_CAP, 600);
    let all = m.log_lines(0);
    assert_eq!(all.len(), LOG_CAP);
    assert_eq!(all[0], "100");
    assert_eq!(all[LOG_CAP - 1], "699");
    assert_eq!(m.log_lines(598), ["698", "699"]);
    assert!(m.log_lines(600).is_empty());
    assert!(m.log_lines(usize::MAX).is_empty());
}

#[test]
fn settings_are_replaced() {
    let mut m = manager();
    assert_eq!(m.settings().engine_dir, None);
    m.set_settings(Settings { engine_dir: Some("/x".to_string()) });
    assert_eq!(m.settings().engine_dir.as_deref(), Some("/x"));
}

#[test]
fn a_saved_directory_is_taken_over_and_asks_for_a_restart() {
    let mut m = manager();
    let generation = running(&mut m);
    let updated = set_engine_dir(Settings::default(), Some(" /new ".to_string()));
    assert_eq!(m.directory_saved(updated, SaveOutcome::Saved), Ok(Restart));
    assert_eq!(m.settings().engine_dir.as_deref(), Some(" /new "));
    assert_eq!(m.snapshot().phase, Phase::Starting);
    m.stop();
    m.finish_stop();
    assert!(m.mark_ready(URL.to_string(), generation).is_none());
    assert!(matches!(m.start(StartEvent::Requested).action, StartAction::PickPort));
    assert_eq!(m.settings().engine_dir.as_deref(), Some(" /new "));
    let blank = set_engine_dir(m.settings().clone(), Some(" ".to_string()));
    assert_eq!(m.directory_saved(blank, SaveOutcome::Saved), Ok(Restart));
    assert_eq!(m.settings().engine_dir, None);
}

#[test]
fn a_directory_that_is_not_saved_changes_nothing() {
    let e = || "reason".to_string();
    let cases = [
        (SaveOutcome::NoConfigDir(e()), "cannot resolve app config dir: reason"),
        (SaveOutcome::DirNotCreated(e()), "cannot create config dir: reason"),
        (SaveOutcome::NotSerialized(e()), "cannot serialize settings: reason"),
        (SaveOutcome::NotWritten(e()), "cannot write settings: reason"),
    ];
    for (outcome, message) in cases {
        let mut m = manager();
        m.set_settings(Settings { engine_dir: Some("/old".to_string()) });
        let generation = running(&mut m);
        let updated = Settings { engine_dir: Some("/new".to_string()) };
        assert_eq!(m.directory_saved(updated, outcome), Err(message.to_string()));
        assert_eq!(m.settings().engine_dir.as_deref(), Some("/old"));
        assert!(m.mark_ready(URL.to_string(), generation).is_some());
    }
}

#[test]
fn the_health_probe_ends_with_its_run() {
    let mut m = manager();
    let g = running(&mut m);
    let tick = |in_time| HealthEvent::Tick { in_time };
    assert!(matches!(m.watch_health(4000, g, tick(true)), HealthAction::Connect));
    assert!(matches!(m.watch_health(4000, g, tick(false)), HealthAction::GiveUp));
    assert!(matches!(m.watch_health(4000, g + 1, tick(true)), HealthAction::GiveUp));
    let probed = |connected| HealthEvent::Probed { connected };
    assert!(matches!(m.watch_health(4000, g, probed(false)), HealthAction::Pause));
    assert!(matches!(
        m.watch_health(4000, g, probed(true)),
        HealthAction::Ready(url) if url == URL
    ));
}

#[test]
fn the_process_watcher_ends_with_its_run_or_process() {
    let mut m = manager();
    let g = running(&mut m);
    assert_eq!(m.watch_child(g, WaitEvent::Tick), WaitAction::Poll);
    assert_eq!(m.watch_child(g + 1, WaitEvent::Tick), WaitAction::GiveUp);
    let polled = |p| m.watch_child(g, WaitEvent::Polled(p));
    assert_eq!(polled(ChildPoll::Missing), WaitAction::GiveUp);
    assert_eq!(polled(ChildPoll::Running), WaitAction::Pause { forget: false });
    assert_eq!(polled(ChildPoll::Unknown), WaitAction::Pause { forget: true });
    assert_eq!(polled(ChildPoll::Exited(Some(3))), WaitAction::Report(Some(3)));
    assert_eq!(polled(ChildPoll::Exited(None)), WaitAction::Report(None));
}
