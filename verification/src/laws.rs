//! What holds of the shell as a whole.

use vstd::prelude::*;
use crate::engine::{
    after_exit, after_line, after_ready, after_save, after_setup_request, after_start,
    awaits_ready, lines_from, logged, published, setup_action, setup_over, start_failed,
    start_reply, start_requested, stop_begun, surveyed_plan, with_change, ManagerModel,
    SetupActionModel, SetupRequest, SpawnOutcome, StartActionModel, StartEvent, Survey, LOG_CAP,
};
use crate::ansi::plain;
use crate::answers::{decimal_is_a_numeral, is_numeral_of};
use crate::local_url::{announces, local_address};
use crate::plan::{
    checkout_plan, package_plan, planned, serve_args, EnginePlan, PlanModel,
};
use crate::process::{kept_command, kill_command, Platform, PortOutcome, WorkDir};
use crate::settings::{save_message, SaveOutcome};
use crate::source::{chosen_dir, Checkout, EngineDirModel};
use crate::state::{
    changed, destination, exited, idle, readied, Change, Destination, EngineModel, Phase,
    TransitionModel,
};
use crate::text::{blank, decimal_int, non_blank};

verus! {

/// The run number after `n` further runs and stops.
pub open spec fn nth_generation(generation: u64, n: nat) -> u64
    decreases n,
{
    if n == 0 {
        generation
    } else {
        nth_generation(generation, (n - 1) as nat).wrapping_add(1)
    }
}

proof fn nth_generation_value(generation: u64, n: nat)
    ensures
        nth_generation(generation, n) as int == (generation + n) % 0x1_0000_0000_0000_0000,
    decreases n,
{
    if n > 0 {
        nth_generation_value(generation, (n - 1) as nat);
    }
}

/// A run number does not come back for as long as there are others: what
/// belongs to a run stays stale through all that follow.
pub proof fn run_number_does_not_come_back(generation: u64, n: nat)
    requires
        0 < n <= u64::MAX,
    ensures
        nth_generation(generation, n) != generation,
{
    nth_generation_value(generation, n);
}

/// What a stale run still reports changes nothing but the log.
pub proof fn stale_run_is_ignored(
    m: ManagerModel,
    generation: u64,
    url: Seq<char>,
    exit_code: Option<i32>,
    line: Seq<char>,
    port: u16,
)
    requires
        generation != m.generation,
    ensures
        after_ready(m, url, generation) == m,
        after_exit(m, generation, exit_code) == m,
        after_line(m, line, port, generation) == (ManagerModel {
            log: logged(m.log, plain(line)),
            ..m
        }),
{
}

/// After a stop there is no engine and no setup, so that a start that follows
/// begins anew: a restart never answers that the engine is running already.
pub proof fn stop_leaves_nothing_running(m: ManagerModel)
    ensures
        ({
            let stopped = with_change(stop_begun(m), Change::Stopped);
            &&& !stopped.engine.running()
            &&& m.engine.phase == Phase::Starting || m.engine.phase == Phase::Ready ==> {
                &&& stopped.engine.phase == Phase::Stopped
                &&& stopped.engine.error is None
            }
            &&& !stopped.engine.setup_active
            &&& !stopped.setup_running
            &&& start_requested(stopped).action == StartActionModel::PickPort
            &&& stopped.log == m.log
            &&& stopped.saved_dir == m.saved_dir
        }),
{
}

/// A stop keeps what an engine that was not running last told of itself.
pub proof fn stop_keeps_terminal_phase(m: ManagerModel)
    requires
        !m.engine.running(),
    ensures
        with_change(stop_begun(m), Change::Stopped).engine == (EngineModel {
            setup_active: false,
            ..m.engine
        }),
{
}

/// A start while the engine runs changes nothing and is answered with
/// success.
pub proof fn start_while_running_is_met(m: ManagerModel)
    requires
        m.engine.running(),
    ensures
        after_start(m, StartEvent::Requested) == m,
        start_reply(m, StartEvent::Requested).action == StartActionModel::Finish(Ok(())),
        start_reply(m, StartEvent::Requested).transition is None,
{
}

/// The engine and the setup exclude each other: no start begins while a setup
/// is running, and no setup begins while the engine is or while another setup
/// is. A request that is turned down changes nothing.
pub proof fn engine_and_setup_exclude_each_other(m: ManagerModel)
    ensures
        m.setup_running ==> start_requested(m).action is Finish,
        m.setup_running || m.engine.running() ==> {
            &&& setup_action(m, SetupRequest::Requested) is Refuse
            &&& after_setup_request(m, SetupRequest::Requested) == m
        },
{
}

/// A request for a setup takes the place of the one setup, gives it up with
/// nothing changed when it is turned down, and leaves it at its end.
pub proof fn setup_request_takes_its_place(m: ManagerModel, checkout: Option<Checkout>, success: bool)
    requires
        setup_action(m, SetupRequest::Requested) == SetupActionModel::Locate,
    ensures
        ({
            let asked = after_setup_request(m, SetupRequest::Requested);
            let located = after_setup_request(asked, SetupRequest::Located { checkout });
            &&& asked.setup_running
            &&& located.setup_running <==> setup_action(
                asked,
                SetupRequest::Located { checkout },
            ) == SetupActionModel::Run
            &&& !located.setup_running ==> located == m
            &&& !setup_over(located, success).setup_running
        }),
{
}

/// After a successful setup there is no setup left to ask for, an error is
/// cleared, and the start that follows begins, unless the engine runs.
pub proof fn setup_clears_the_way(m: ManagerModel)
    ensures
        ({
            let over = setup_over(m, true);
            &&& !over.engine.setup_needed && !over.engine.setup_active
            &&& m.engine.phase == Phase::Error ==> over.engine.phase == Phase::Idle
                && over.engine.error is None
            &&& !m.engine.running() ==> start_requested(over).action == StartActionModel::PickPort
        }),
{
}

/// After a failed setup the shell goes on to offer it, and the phase stays.
pub proof fn failed_setup_is_offered_again(m: ManagerModel)
    ensures
        setup_over(m, false).engine == (EngineModel {
            setup_needed: true,
            setup_active: false,
            ..m.engine
        }),
{
}

/// Of all that is found of a run, the first finding counts: the line on its
/// output and the probe of its port make the engine ready only once.
pub proof fn engine_becomes_ready_once(
    m: ManagerModel,
    first: Seq<char>,
    second: Seq<char>,
    generation: u64,
)
    ensures
        after_ready(after_ready(m, first, generation), second, generation) == after_ready(
            m,
            first,
            generation,
        ),
        !awaits_ready(after_ready(m, first, generation), generation),
{
}

/// A change never makes the engine ready, so that the window enters the web
/// UI only when the engine was found to serve.
pub proof fn changes_never_enter_the_web_ui(m: EngineModel, change: Change)
    ensures
        changed(m, change).phase == Phase::Ready ==> m.phase == Phase::Ready && changed(
            m,
            change,
        ).url == m.url,
        destination(m, changed(m, change)) == Destination::Stay || destination(
            m,
            changed(m, change),
        ) == Destination::Splash,
{
}

/// Whatever ends a ready engine brings the window back to the splash page.
pub proof fn leaving_ready_shows_the_splash(before: EngineModel, after: EngineModel)
    requires
        before.phase == Phase::Ready,
        after.phase != Phase::Ready,
    ensures
        destination(before, after) == Destination::Splash,
{
}

/// Becoming ready takes the window to the address that was found.
pub proof fn becoming_ready_shows_the_web_ui(m: EngineModel, url: Seq<char>)
    requires
        m.phase == Phase::Starting,
    ensures
        destination(m, readied(m, url)) == Destination::Engine(url),
{
}

/// A process that ends by itself leaves no engine running. It is an error
/// before the web UI was ready, and a plain stop after. Its exit code is kept.
pub proof fn exit_ends_the_run(m: EngineModel, exit_code: Option<i32>)
    requires
        m.running(),
    ensures
        !exited(m, exit_code).running(),
        exited(m, exit_code).exit_code == exit_code,
        exited(m, exit_code).phase == Phase::Error <==> m.phase == Phase::Starting,
        exited(m, exit_code).phase == Phase::Stopped <==> m.phase == Phase::Ready,
        exited(m, exit_code).phase == Phase::Error ==> exited(m, exit_code).error is Some,
{
}

/// A failed start is told as an error, and another start may follow.
pub proof fn failed_start_can_be_repeated(m: ManagerModel, e: Seq<char>)
    requires
        !m.setup_running,
    ensures
        start_failed(m, e).engine.error == Some(e),
        start_requested(start_failed(m, e)).action == StartActionModel::PickPort,
{
}

/// A start for which all goes well runs through: it ends with a new run of
/// the engine, which is starting on the picked port, and a line of that run
/// that announces the port makes it ready at its address and takes the window
/// there.
pub proof fn engine_comes_up(
    m: ManagerModel,
    port: u16,
    survey: Survey,
    plan: EnginePlan,
    pid: u32,
    line: Seq<char>,
)
    requires
        !m.engine.running(),
        !m.setup_running,
        surveyed_plan(port, survey) == Ok::<PlanModel, Seq<char>>(plan@),
        announces(line, port as nat),
    ensures
        ({
            let picked = StartEvent::PortPicked(PortOutcome::Bound(port));
            let surveyed = StartEvent::Surveyed { port, survey };
            let spawned = StartEvent::Spawned { port, plan, outcome: SpawnOutcome::Running { pid } };
            let up = after_start(m, spawned);
            let ready = after_line(up, line, port, up.generation);
            &&& start_reply(m, StartEvent::Requested).action == StartActionModel::PickPort
            &&& start_reply(m, picked).action == StartActionModel::Survey { port }
            &&& start_reply(m, surveyed).action == StartActionModel::Spawn { port, plan: plan@ }
            &&& start_reply(m, spawned).action == StartActionModel::Watch {
                port,
                generation: up.generation,
            }
            &&& after_start(m, StartEvent::Requested) == m
            &&& after_start(m, picked) == m
            &&& after_start(m, surveyed) == m
            &&& up.generation != m.generation
            &&& up.engine.phase == Phase::Starting
            &&& up.engine.port == Some(port)
            &&& ready.engine.phase == Phase::Ready
            &&& ready.engine.url == Some(local_address(port as nat))
            &&& published(up, ready).to == Destination::Engine(local_address(port as nat))
        }),
{
}

/// One thing that happens to the manager.
pub ghost enum Step {
    Start(StartEvent),
    Stop,
    FinishStop,
    Setup(SetupRequest),
    FinishSetup { success: bool },
    Ready { url: Seq<char>, generation: u64 },
    Exit { generation: u64, exit_code: Option<i32> },
    Line { line: Seq<char>, port: u16, generation: u64 },
    Log { line: Seq<char> },
    Settings { engine_dir: Option<Seq<char>> },
}

/// The manager after a step.
pub open spec fn after_step(m: ManagerModel, step: Step) -> ManagerModel {
    match step {
        Step::Start(event) => after_start(m, event),
        Step::Stop => stop_begun(m),
        Step::FinishStop => with_change(m, Change::Stopped),
        Step::Setup(request) => after_setup_request(m, request),
        Step::FinishSetup { success } => setup_over(m, success),
        Step::Ready { url, generation } => after_ready(m, url, generation),
        Step::Exit { generation, exit_code } => after_exit(m, generation, exit_code),
        Step::Line { line, port, generation } => after_line(m, line, port, generation),
        Step::Log { line } => ManagerModel { log: logged(m.log, plain(line)), ..m },
        Step::Settings { engine_dir } => ManagerModel { saved_dir: engine_dir, ..m },
    }
}

/// What a step publishes: the new state, and where the window goes with it.
pub open spec fn step_published(m: ManagerModel, step: Step) -> Option<TransitionModel> {
    let after = after_step(m, step);
    match step {
        Step::Start(event) => start_reply(m, event).transition,
        Step::FinishStop => Some(published(m, after)),
        Step::Setup(request) => if setup_action(m, request) == SetupActionModel::Run {
            Some(published(m, after))
        } else {
            None
        },
        Step::FinishSetup { .. } => Some(published(m, after)),
        Step::Ready { url, generation } => if awaits_ready(m, generation) {
            Some(TransitionModel { state: after.state(), to: Destination::Engine(url) })
        } else {
            None
        },
        Step::Exit { generation, .. } => if generation == m.generation && m.engine.running() {
            Some(TransitionModel { state: after.state(), to: Destination::Splash })
        } else {
            None
        },
        Step::Line { line, port, generation } => if announces(line, port as nat) && awaits_ready(
            m,
            generation,
        ) {
            Some(
                TransitionModel {
                    state: after.state(),
                    to: Destination::Engine(local_address(port as nat)),
                },
            )
        } else {
            None
        },
        Step::Stop | Step::Log { .. } | Step::Settings { .. } => None,
    }
}

/// Where the window is sent by a step.
pub open spec fn step_destination(m: ManagerModel, step: Step) -> Destination {
    match step_published(m, step) {
        Some(t) => t.to,
        None => Destination::Stay,
    }
}

/// Every change of the engine's state is published, as the state that it led
/// to.
pub proof fn state_changes_are_published(m: ManagerModel, step: Step)
    requires
        after_step(m, step).engine != m.engine,
    ensures
        step_published(m, step) is Some,
        step_published(m, step)->0.state.engine == after_step(m, step).engine,
{
}

/// What the window shows: the web UI at an address, or the splash page.
pub open spec fn page_after(page: Option<Seq<char>>, to: Destination) -> Option<Seq<char>> {
    match to {
        Destination::Stay => page,
        Destination::Engine(url) => Some(url),
        Destination::Splash => None,
    }
}

/// What the window is to show of an engine: its web UI exactly while it is
/// ready.
pub open spec fn page_of(m: EngineModel) -> Option<Seq<char>> {
    if m.phase == Phase::Ready {
        m.url
    } else {
        None
    }
}

/// The manager and the window after a number of steps.
pub open spec fn after_steps(
    m: ManagerModel,
    page: Option<Seq<char>>,
    steps: Seq<Step>,
) -> (ManagerModel, Option<Seq<char>>)
    decreases steps.len(),
{
    if steps.len() == 0 {
        (m, page)
    } else {
        let (before, shown) = after_steps(m, page, steps.drop_last());
        (
            after_step(before, steps.last()),
            page_after(shown, step_destination(before, steps.last())),
        )
    }
}

/// Whatever happens, in whatever order, the manager stays well-formed, and
/// the window shows the web UI exactly while the engine is ready, at the
/// address that the state tells.
pub proof fn window_follows_the_engine(
    m: ManagerModel,
    page: Option<Seq<char>>,
    steps: Seq<Step>,
)
    requires
        m.wf(),
        page == page_of(m.engine),
    ensures
        ({
            let (now, shown) = after_steps(m, page, steps);
            now.wf() && shown == page_of(now.engine)
        }),
    decreases steps.len(),
{
    if steps.len() > 0 {
        window_follows_the_engine(m, page, steps.drop_last());
    }
}

/// A stop and a new run each end the run before.
pub open spec fn ends_run(step: Step) -> bool {
    match step {
        Step::Stop => true,
        Step::Start(StartEvent::Spawned { outcome: SpawnOutcome::Running { .. }, .. }) => true,
        _ => false,
    }
}

/// How many of the steps end a run.
pub open spec fn ended_runs(steps: Seq<Step>) -> nat
    decreases steps.len(),
{
    if steps.len() == 0 {
        0
    } else {
        ended_runs(steps.drop_last()) + if ends_run(steps.last()) {
            1nat
        } else {
            0nat
        }
    }
}

/// The run number counts the runs that have ended.
pub proof fn runs_are_numbered(m: ManagerModel, page: Option<Seq<char>>, steps: Seq<Step>)
    ensures
        after_steps(m, page, steps).0.generation == nth_generation(
            m.generation,
            ended_runs(steps),
        ),
    decreases steps.len(),
{
    if steps.len() > 0 {
        runs_are_numbered(m, page, steps.drop_last());
    }
}

/// A run that has ended stays stale, whatever happens after: it can neither
/// become ready nor fail any more.
pub proof fn ended_run_stays_stale(
    m: ManagerModel,
    page: Option<Seq<char>>,
    steps: Seq<Step>,
    url: Seq<char>,
    exit_code: Option<i32>,
)
    requires
        0 < ended_runs(steps) <= u64::MAX,
    ensures
        ({
            let now = after_steps(m, page, steps).0;
            &&& now.generation != m.generation
            &&& after_ready(now, url, m.generation) == now
            &&& after_exit(now, m.generation, exit_code) == now
        }),
{
    runs_are_numbered(m, page, steps);
    run_number_does_not_come_back(m.generation, ended_runs(steps));
}

/// Ends a setup that was asked for: a stop, its own end, or the finding that
/// there is no checkout for it.
pub open spec fn ends_setup(step: Step) -> bool {
    match step {
        Step::Stop => true,
        Step::FinishSetup { .. } => true,
        Step::Setup(SetupRequest::Located { checkout: None }) => true,
        Step::Setup(SetupRequest::Located { checkout: Some(c) }) => !c.facts.checkout(),
        _ => false,
    }
}

/// A setup that was asked for keeps starts and other setups out, whatever
/// happens, until something ends it.
pub proof fn setup_keeps_starts_out(m: ManagerModel, page: Option<Seq<char>>, steps: Seq<Step>)
    requires
        m.setup_running,
        forall|i: int| 0 <= i < steps.len() ==> !ends_setup(#[trigger] steps[i]),
    ensures
        ({
            let now = after_steps(m, page, steps).0;
            &&& now.setup_running
            &&& start_requested(now).action is Finish
            &&& setup_action(now, SetupRequest::Requested) is Refuse
        }),
    decreases steps.len(),
{
    if steps.len() > 0 {
        assert forall|i: int| 0 <= i < steps.drop_last().len() implies !ends_setup(
            #[trigger] steps.drop_last()[i],
        ) by {
            assert(steps.drop_last()[i] == steps[i]);
        }
        setup_keeps_starts_out(m, page, steps.drop_last());
        assert(!ends_setup(steps[steps.len() - 1]));
    }
}

/// A ready engine is at the loopback address of its own port.
pub open spec fn at_own_address(m: EngineModel) -> bool {
    m.phase == Phase::Ready ==> match m.port {
        Some(port) => m.url == Some(local_address(port as nat)),
        None => false,
    }
}

/// A finding that would make the engine ready carries the port of the run
/// that it is about.
pub open spec fn carries_own_port(m: ManagerModel, step: Step) -> bool {
    match step {
        Step::Ready { url, generation } => awaits_ready(m, generation) ==> match m.engine.port {
            Some(port) => url == local_address(port as nat),
            None => false,
        },
        Step::Line { port, generation, .. } => awaits_ready(m, generation) ==> m.engine.port
            == Some(port),
        _ => true,
    }
}

/// All of the steps carry the port of the run that they are about.
pub open spec fn steps_carry_own_port(
    m: ManagerModel,
    page: Option<Seq<char>>,
    steps: Seq<Step>,
) -> bool
    decreases steps.len(),
{
    steps.len() > 0 ==> {
        &&& steps_carry_own_port(m, page, steps.drop_last())
        &&& carries_own_port(after_steps(m, page, steps.drop_last()).0, steps.last())
    }
}

/// Whatever happens, a ready engine is at the loopback address of the port
/// that was reserved for it, as long as what is found of a run carries the
/// port of that run.
pub proof fn ready_engine_is_at_its_own_address(
    m: ManagerModel,
    page: Option<Seq<char>>,
    steps: Seq<Step>,
)
    requires
        at_own_address(m.engine),
        steps_carry_own_port(m, page, steps),
    ensures
        at_own_address(after_steps(m, page, steps).0.engine),
    decreases steps.len(),
{
    if steps.len() > 0 {
        ready_engine_is_at_its_own_address(m, page, steps.drop_last());
    }
}

/// The step at `k` began a run on `port` and handed out its run number.
pub open spec fn began_run(
    m: ManagerModel,
    page: Option<Seq<char>>,
    steps: Seq<Step>,
    k: int,
    port: u16,
    generation: u64,
) -> bool {
    0 <= k < steps.len() && match steps[k] {
        Step::Start(event) => start_reply(
            after_steps(m, page, steps.take(k)).0,
            event,
        ).action == StartActionModel::Watch { port, generation },
        _ => false,
    }
}

/// A step that comes after `before` and tells of a run tells of it under the
/// port and the number that the run was begun with.
pub open spec fn tells_of_a_begun_run(
    m: ManagerModel,
    page: Option<Seq<char>>,
    before: Seq<Step>,
    step: Step,
) -> bool {
    match step {
        Step::Ready { url, generation } => exists|k: int, port: u16| #[trigger]
            began_run(m, page, before, k, port, generation) && url == local_address(port as nat),
        Step::Line { port, generation, .. } => exists|k: int| #[trigger]
            began_run(m, page, before, k, port, generation),
        _ => true,
    }
}

/// All of the steps tell of runs only as they were begun.
pub open spec fn steps_tell_of_begun_runs(
    m: ManagerModel,
    page: Option<Seq<char>>,
    steps: Seq<Step>,
) -> bool
    decreases steps.len(),
{
    steps.len() > 0 ==> {
        &&& steps_tell_of_begun_runs(m, page, steps.drop_last())
        &&& tells_of_a_begun_run(m, page, steps.drop_last(), steps.last())
    }
}

proof fn ended_runs_only_grow(steps: Seq<Step>, k: int)
    requires
        0 <= k <= steps.len(),
    ensures
        ended_runs(steps.take(k)) <= ended_runs(steps),
    decreases steps.len(),
{
    if k == steps.len() {
        assert(steps.take(k) =~= steps);
    } else {
        ended_runs_only_grow(steps.drop_last(), k);
        assert(steps.drop_last().take(k) =~= steps.take(k));
    }
}

proof fn port_stays_within_a_run(
    m: ManagerModel,
    page: Option<Seq<char>>,
    steps: Seq<Step>,
    k: int,
)
    requires
        0 <= k <= steps.len(),
        ended_runs(steps.take(k)) == ended_runs(steps),
    ensures
        after_steps(m, page, steps).0.engine.port == after_steps(
            m,
            page,
            steps.take(k),
        ).0.engine.port,
    decreases steps.len(),
{
    if k == steps.len() {
        assert(steps.take(k) =~= steps);
    } else {
        ended_runs_only_grow(steps.drop_last(), k);
        assert(steps.drop_last().take(k) =~= steps.take(k));
        port_stays_within_a_run(m, page, steps.drop_last(), k);
    }
}

/// A run that was begun on a port is the current one only while the engine
/// has that port.
pub proof fn current_run_has_its_port(
    m: ManagerModel,
    page: Option<Seq<char>>,
    steps: Seq<Step>,
    k: int,
    port: u16,
    generation: u64,
)
    requires
        began_run(m, page, steps, k, port, generation),
        ended_runs(steps) <= u64::MAX,
        after_steps(m, page, steps).0.generation == generation,
    ensures
        after_steps(m, page, steps).0.engine.port == Some(port),
{
    let begun = steps.take(k + 1);
    assert(begun.drop_last() =~= steps.take(k));
    assert(begun.last() == steps[k]);
    assert(after_steps(m, page, begun).0.generation == generation);
    assert(after_steps(m, page, begun).0.engine.port == Some(port));
    runs_are_numbered(m, page, begun);
    runs_are_numbered(m, page, steps);
    nth_generation_value(m.generation, ended_runs(begun));
    nth_generation_value(m.generation, ended_runs(steps));
    ended_runs_only_grow(steps, k + 1);
    port_stays_within_a_run(m, page, steps, k + 1);
}

/// Steps that tell of runs as they were begun carry the port of the run that
/// they are about.
pub proof fn begun_runs_carry_own_port(
    m: ManagerModel,
    page: Option<Seq<char>>,
    steps: Seq<Step>,
)
    requires
        steps_tell_of_begun_runs(m, page, steps),
        ended_runs(steps) <= u64::MAX,
    ensures
        steps_carry_own_port(m, page, steps),
    decreases steps.len(),
{
    if steps.len() > 0 {
        let before = steps.drop_last();
        let now = after_steps(m, page, before).0;
        begun_runs_carry_own_port(m, page, before);
        match steps.last() {
            Step::Ready { url, generation } => {
                let (k, port) = choose|k: int, port: u16| #[trigger]
                    began_run(m, page, before, k, port, generation) && url == local_address(
                        port as nat,
                    );
                if awaits_ready(now, generation) {
                    current_run_has_its_port(m, page, before, k, port, generation);
                }
            },
            Step::Line { port, generation, .. } => {
                let k = choose|k: int| #[trigger]
                    began_run(m, page, before, k, port, generation);
                if awaits_ready(now, generation) {
                    current_run_has_its_port(m, page, before, k, port, generation);
                }
            },
            _ => {},
        }
    }
}

/// What a snapshot shows, at any time after `EngineManager::new`, when runs are
/// told of under the port and the number that they were begun with: a ready
/// engine has its own address and neither error nor exit code, a starting one
/// has a port and a mode and none of these, and the log length is that of the
/// log, which never passes its cap.
pub proof fn snapshot_is_sound(m: ManagerModel, page: Option<Seq<char>>, steps: Seq<Step>)
    requires
        m.engine == idle(),
        m.log == Seq::<Seq<char>>::empty(),
        page is None,
        steps_tell_of_begun_runs(m, page, steps),
        ended_runs(steps) <= u64::MAX,
    ensures
        ({
            let now = after_steps(m, page, steps).0;
            let shown = now.state().engine;
            &&& shown.phase == Phase::Ready ==> {
                &&& shown.port is Some
                &&& shown.url == Some(local_address(shown.port->0 as nat))
                &&& shown.error is None
                &&& shown.exit_code is None
            }
            &&& shown.phase == Phase::Starting ==> {
                &&& shown.port is Some
                &&& shown.mode is Some
                &&& shown.url is None
                &&& shown.error is None
                &&& shown.exit_code is None
            }
            &&& now.state().log_len == lines_from(now.log, 0).len()
            &&& now.state().log_len <= LOG_CAP
        }),
{
    window_follows_the_engine(m, page, steps);
    begun_runs_carry_own_port(m, page, steps);
    ready_engine_is_at_its_own_address(m, page, steps);
    log_is_fetched_in_parts(after_steps(m, page, steps).0, 0);
}

/// A process that the shell keeps can be ended with all that it started: it
/// leads a process group, and off Windows the kill command names that group,
/// by the negative of the process number.
pub proof fn kept_processes_are_ended_as_a_group(
    platform: Platform,
    pid: u32,
    program: Seq<char>,
    args: Seq<Seq<char>>,
    dir: WorkDir,
)
    requires
        platform != Platform::Windows,
        pid > 0,
    ensures
        kept_command(program, args, dir).leads_group,
        kill_command(platform, pid).args.last() == decimal_int(-(pid as int)),
{
}

/// The log after all of `lines` were added to it.
pub open spec fn log_after(log: Seq<Seq<char>>, lines: Seq<Seq<char>>) -> Seq<Seq<char>>
    decreases lines.len(),
{
    if lines.len() == 0 {
        log
    } else {
        logged(log_after(log, lines.drop_last()), lines.last())
    }
}

/// The log is the most recent part of all that was ever added: everything, as
/// long as it fits, and the last `LOG_CAP` lines from then on.
pub proof fn log_holds_the_latest_lines(lines: Seq<Seq<char>>)
    ensures
        log_after(Seq::empty(), lines) == if lines.len() <= LOG_CAP {
            lines
        } else {
            lines.skip(lines.len() - LOG_CAP)
        },
    decreases lines.len(),
{
    if lines.len() == 0 {
        assert(lines =~= Seq::empty());
    } else {
        log_holds_the_latest_lines(lines.drop_last());
        let before = log_after(Seq::empty(), lines.drop_last());
        if lines.len() <= LOG_CAP {
            assert(before.push(lines.last()) =~= lines);
        } else {
            assert(logged(before, lines.last()) =~= lines.skip(lines.len() - LOG_CAP));
        }
    }
}

/// The length that the shell is shown is the number of lines it can fetch,
/// and fetching in two parts gives the whole log.
pub proof fn log_is_fetched_in_parts(m: ManagerModel, at: nat)
    requires
        at <= m.log.len(),
    ensures
        lines_from(m.log, 0).len() == m.state().log_len,
        lines_from(m.log, m.state().log_len) == Seq::<Seq<char>>::empty(),
        lines_from(m.log, 0).take(at as int) + lines_from(m.log, at) == m.log,
{
    assert(lines_from(m.log, 0) =~= m.log);
    assert(lines_from(m.log, at) =~= m.log.skip(at as int));
    assert(m.log.take(at as int) + m.log.skip(at as int) =~= m.log);
}

/// However the engine is run, it is told to serve on the loopback interface
/// and on the reserved port.
pub proof fn every_plan_serves_locally(
    port: u16,
    node: Result<String, String>,
    checkout: Option<Checkout>,
    config_dir: Result<String, String>,
    platform: Platform,
)
    requires
        planned(port, node, checkout, config_dir, platform) is Ok,
    ensures
        ({
            let args = planned(port, node, checkout, config_dir, platform)->Ok_0.args;
            let n = serve_args(port).len();
            &&& args.len() > n
            &&& args.skip(args.len() - n) == serve_args(port)
            &&& n == 5
            &&& args[args.len() - 5] == "web"@
            &&& args[args.len() - 4] == "--host"@
            &&& args[args.len() - 3] == "127.0.0.1"@
            &&& args[args.len() - 2] == "--port"@
            &&& is_numeral_of(args.last(), port as nat)
        }),
{
    let args = planned(port, node, checkout, config_dir, platform)->Ok_0.args;
    let n = serve_args(port).len();
    assert(args.skip(args.len() - n) =~= serve_args(port));
    decimal_is_a_numeral(port as nat);
}

/// The published package is run exactly when no directory was chosen for the
/// engine. A chosen directory is run with node, or refused.
pub proof fn package_is_the_last_resort(
    port: u16,
    node: String,
    checkout: Option<Checkout>,
    config_dir: String,
    platform: Platform,
)
    ensures
        ({
            let plan = planned(port, Ok(node), checkout, Ok(config_dir), platform);
            match checkout {
                None => plan == Ok::<PlanModel, Seq<char>>(
                    package_plan(port, config_dir@, platform),
                ),
                Some(c) => match plan {
                    Ok(p) => p == checkout_plan(port, node@, c) && c.facts.checkout()
                        && c.facts.ready(),
                    Err(_) => !c.facts.checkout() || !c.facts.ready(),
                },
            }
        }),
{
}

/// The order in which the engine directory is looked for: the saved one, then
/// the one in the environment, then one next to the app. A blank name is no
/// name.
pub proof fn engine_directory_order(
    saved: Seq<char>,
    environment: Seq<char>,
    any_environment: Option<Seq<char>>,
    nearby: Option<usize>,
)
    ensures
        !blank(saved) ==> chosen_dir(Some(saved), any_environment, nearby) == Some(
            EngineDirModel::Saved(saved),
        ),
        blank(saved) ==> chosen_dir(Some(saved), any_environment, nearby) == chosen_dir(
            None,
            any_environment,
            nearby,
        ),
        !blank(environment) ==> chosen_dir(None, Some(environment), nearby) == Some(
            EngineDirModel::Environment(environment),
        ),
        blank(environment) ==> chosen_dir(None, Some(environment), nearby) == chosen_dir(
            None,
            None,
            nearby,
        ),
        chosen_dir(None, None, nearby) == match nearby {
            Some(i) => Some(EngineDirModel::Nearby(i)),
            None => None,
        },
{
}

/// A directory that was set in the shell is the one that is used, and setting
/// a blank one gives the choice back to the other sources.
pub proof fn set_directory_is_used(
    dir: Option<Seq<char>>,
    environment: Option<Seq<char>>,
    nearby: Option<usize>,
)
    ensures
        ({
            let kept = non_blank(dir);
            chosen_dir(kept, environment, nearby) == match kept {
                Some(d) => Some(EngineDirModel::Saved(d)),
                None => chosen_dir(None, environment, nearby),
            }
        }),
{
}

/// An engine directory that was set and saved is in force when the restart
/// that follows begins to start the engine anew, and is the one that is used.
/// One that could not be saved is told as an error and changes nothing.
pub proof fn set_directory_is_in_force_at_the_restart(
    m: ManagerModel,
    dir: Option<Seq<char>>,
    outcome: SaveOutcome,
    environment: Option<Seq<char>>,
    nearby: Option<usize>,
)
    ensures
        ({
            let now = after_save(m, non_blank(dir), outcome);
            let stopped = with_change(stop_begun(now), Change::Stopped);
            match save_message(outcome) {
                None => {
                    &&& stopped.saved_dir == non_blank(dir)
                    &&& start_requested(stopped).action == StartActionModel::PickPort
                    &&& chosen_dir(stopped.saved_dir, environment, nearby) == match non_blank(dir) {
                        Some(d) => Some(EngineDirModel::Saved(d)),
                        None => chosen_dir(None, environment, nearby),
                    }
                },
                Some(_) => now == m,
            }
        }),
{
}

} // verus!
