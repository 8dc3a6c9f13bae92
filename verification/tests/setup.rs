use dsh_desktop::process::{Platform, WorkDir};
use dsh_desktop::setup::{
    run_setup, run_setup_stage, stage_name, stage_started_line, SetupNext, SetupProgress,
    SetupStage, StageOutcome,
};

fn over(stage: SetupStage, result: Result<bool, String>) -> SetupProgress {
    SetupProgress::StageOver { stage, result }
}

fn command(platform: Platform, next: SetupNext, expected: SetupStage) -> (String, Vec<String>) {
    match next {
        SetupNext::RunStage { stage, command } => {
            assert_eq!(stage, expected);
            assert_eq!(command.dir, WorkDir::EngineDir, "{platform:?}");
            assert!(command.watched && command.leads_group);
            (command.program, command.args)
        }
        SetupNext::Finish { .. } => panic!("finished"),
    }
}

fn finishes(next: SetupNext, expected: bool) -> bool {
    matches!(next, SetupNext::Finish { success } if success == expected)
}

#[test]
fn setup_installs_then_builds() {
    let step = run_setup(Platform::Other, SetupProgress::Begun);
    let (program, args) = command(Platform::Other, step.next, SetupStage::Install);
    assert_eq!(program, "pnpm");
    assert_eq!(args, ["install", "--no-frozen-lockfile"]);
    assert_eq!(step.event.stage, "install");
    assert_eq!((step.event.line, step.event.done, step.event.error), (None, false, None));
    let step = run_setup(Platform::Other, over(SetupStage::Install, Ok(true)));
    let (program, args) = command(Platform::Other, step.next, SetupStage::Build);
    assert_eq!(program, "pnpm");
    assert_eq!(args, ["run", "build"]);
    assert_eq!(step.event.stage, "build");
    assert_eq!((step.event.line, step.event.done, step.event.error), (None, false, None));
    let step = run_setup(Platform::Other, over(SetupStage::Build, Ok(true)));
    assert!(finishes(step.next, true));
    assert_eq!(step.event.stage, "done");
    assert_eq!((step.event.line, step.event.done, step.event.error), (None, true, None));
}

#[test]
fn setup_ends_at_the_first_failure() {
    for (stage, name) in [(SetupStage::Install, "install"), (SetupStage::Build, "build")] {
        let step = run_setup(Platform::Other, over(stage, Ok(false)));
        assert!(finishes(step.next, false));
        assert_eq!(step.event.stage, name);
        assert!(!step.event.done);
        assert_eq!(
            step.event.error,
            Some(format!("pnpm {name} failed; see the log for details"))
        );
        let step = run_setup(Platform::Other, over(stage, Err("lost".to_string())));
        assert!(finishes(step.next, false));
        assert_eq!(step.event.stage, name);
        assert_eq!(step.event.error, Some("lost".to_string()));
    }
}

#[test]
fn stages_run_pnpm() {
    let step = run_setup(Platform::Windows, over(SetupStage::Install, Ok(true)));
    let (program, args) = command(Platform::Windows, step.next, SetupStage::Build);
    assert_eq!(program, "cmd");
    assert_eq!(args, ["/C", "pnpm", "run", "build"]);
    assert_eq!(stage_name(SetupStage::Install), "install");
    assert_eq!(stage_name(SetupStage::Build), "build");
    assert_eq!(
        stage_started_line(SetupStage::Build, 12),
        "[dsh-desktop] pnpm build started (pid 12)"
    );
}

#[test]
fn stage_outcomes_have_their_results() {
    let stage = SetupStage::Install;
    let e = || "why".to_string();
    let err = |outcome| run_setup_stage(stage, outcome).unwrap_err();
    assert_eq!(err(StageOutcome::NotStarted(e())), "failed to start pnpm install: why");
    assert_eq!(err(StageOutcome::NoStdout), "pnpm stdout unavailable");
    assert_eq!(err(StageOutcome::NoStderr), "pnpm stderr unavailable");
    assert_eq!(err(StageOutcome::Disappeared), "pnpm child disappeared");
    assert_eq!(err(StageOutcome::NotWaitedFor(e())), "pnpm install wait failed: why");
    assert_eq!(run_setup_stage(stage, StageOutcome::Exited { success: true }), Ok(true));
    assert_eq!(run_setup_stage(stage, StageOutcome::Exited { success: false }), Ok(false));
}
