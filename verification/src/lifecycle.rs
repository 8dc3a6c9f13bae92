//! What the manager makes of each request and each report, said of the calls
//! themselves.

use vstd::prelude::*;
use crate::ansi::plain;
use crate::answers::{decimal_is_a_numeral, is_numeral_of};
use crate::engine::{
    ChildPoll, EngineManager, FinishReply, HealthAction, HealthEvent, LineReply, ManagerModel,
    ReadyReply, Restart, SetupAction, SetupReply, SetupRequest, SpawnOutcome, StartAction,
    StartEvent, StartReply, Survey, WaitAction, WaitEvent,
};
use crate::local_url::{extract_local_url, local_url};
use crate::plan::{resolve_plan, EnginePlan};
use crate::process::{pick_free_port, PortOutcome};
use crate::settings::{SaveOutcome, Settings};
use crate::source::Checkout;
use crate::state::{
    boundary, destination, EngineInner, EngineModel, EngineStateView, Navigation, Phase, Transition,
};
use crate::text::{decimal, opt_text, signed_decimal_string, texts};

verus! {

/// `view` shows all of the engine, and the number of lines in the log.
pub open spec fn shows(view: EngineStateView, m: ManagerModel) -> bool {
    &&& view.phase == m.engine.phase
    &&& opt_text(view.url) == m.engine.url
    &&& view.port == m.engine.port
    &&& opt_text(view.error) == m.engine.error
    &&& view.exit_code == m.engine.exit_code
    &&& opt_text(view.mode) == m.engine.mode
    &&& view.setup_needed == m.engine.setup_needed
    &&& view.setup_active == m.engine.setup_active
    &&& view.log_len == m.log.len()
}

/// `after` is `before` with `line` at its end, and without its oldest line
/// where it would otherwise pass six hundred.
pub open spec fn grew_by(before: Seq<Seq<char>>, after: Seq<Seq<char>>, line: Seq<char>) -> bool {
    &&& after.len() > 0 && after.last() == line
    &&& before.len() < 600 ==> after.drop_last() == before
    &&& before.len() == 600 ==> after.drop_last() == before.skip(1)
}

/// Nothing but the engine differs.
pub open spec fn only_engine_differs(before: ManagerModel, after: ManagerModel) -> bool {
    &&& after.log == before.log
    &&& after.generation == before.generation
    &&& after.setup_running == before.setup_running
    &&& after.saved_dir == before.saved_dir
    &&& after.splash_url == before.splash_url
}

/// The window enters the web UI when the engine becomes ready, returns to the
/// splash page when it no longer is, and otherwise stays.
pub proof fn window_crosses_the_ready_boundary(
    was_ready: bool,
    inner: EngineInner,
    to: Navigation,
)
    requires
        call_ensures(boundary, (was_ready, &inner), to),
    ensures
        inner.phase == Phase::Ready && !was_ready ==> match inner.url {
            Some(url) => to matches Navigation::Engine(at) && at@ == url@,
            None => to is Stay,
        },
        inner.phase != Phase::Ready && was_ready ==> to is Splash,
        (inner.phase == Phase::Ready) == was_ready ==> to is Stay,
{
    let before = EngineModel {
        phase: if was_ready {
            Phase::Ready
        } else {
            Phase::Idle
        },
        ..inner@
    };
    assert(to@ == destination(before, inner@));
}

/// A new manager has an idle engine of which nothing is known, an empty log,
/// and the given settings and splash page. No setup is running.
pub proof fn manager_begins_idle(
    settings: Settings,
    splash_url: Option<String>,
    m: EngineManager,
    view: EngineStateView,
    kept: &Settings,
    page: Option<String>,
)
    requires
        call_ensures(EngineManager::new, (settings, splash_url), m),
        call_ensures(EngineManager::snapshot, (&m,), view),
        call_ensures(EngineManager::settings, (&m,), kept),
        call_ensures(EngineManager::navigate_splash, (&m,), page),
    ensures
        view.phase == Phase::Idle,
        view.url is None && view.port is None && view.error is None,
        view.exit_code is None && view.mode is None,
        !view.setup_needed && !view.setup_active,
        view.log_len == 0,
        opt_text(kept.engine_dir) == opt_text(settings.engine_dir),
        opt_text(page) == opt_text(splash_url),
        !m@.setup_running,
{
}

/// A snapshot shows the engine as it is. The settings and the splash page in
/// force are those that the manager holds.
pub proof fn snapshot_shows_the_engine(
    m: EngineManager,
    view: EngineStateView,
    settings: &Settings,
    page: Option<String>,
)
    requires
        call_ensures(EngineManager::snapshot, (&m,), view),
        call_ensures(EngineManager::settings, (&m,), settings),
        call_ensures(EngineManager::navigate_splash, (&m,), page),
    ensures
        shows(view, m@),
        opt_text(settings.engine_dir) == m@.saved_dir,
        opt_text(page) == m@.splash_url,
{
}

/// The log is fetched from a given line to its end: every line in its place,
/// and none when there is none from there on.
pub proof fn log_is_fetched_from_a_line(m: EngineManager, from: usize, lines: Vec<String>)
    requires
        call_ensures(EngineManager::log_lines, (&m, from), lines),
    ensures
        from >= m@.log.len() ==> lines@.len() == 0,
        from < m@.log.len() ==> lines@.len() == m@.log.len() - from,
        forall|i: int| 0 <= i < lines@.len() ==> #[trigger] lines@[i]@ == m@.log[from + i],
{
    assert(texts(lines@).len() == lines@.len());
    assert forall|i: int| 0 <= i < lines@.len() implies #[trigger] lines@[i]@ == m@.log[from
        + i] by {
        assert(texts(lines@)[i] == lines@[i]@);
    }
}

/// A line that is added to the log stands at its end, as plain text, and
/// changes nothing else.
pub proof fn line_is_added_to_the_log(m: &mut EngineManager, line: &str, clean: String)
    requires
        call_ensures(EngineManager::push_log, (m, line), clean),
    ensures
        clean@ == plain(line@),
        grew_by(old(m)@.log, final(m)@.log, plain(line@)),
        final(m)@ == (ManagerModel { log: final(m)@.log, ..old(m)@ }),
{
    if old(m)@.log.len() < 600 {
        assert(final(m)@.log.drop_last() =~= old(m)@.log);
    } else if old(m)@.log.len() == 600 {
        assert(final(m)@.log.drop_last() =~= old(m)@.log.skip(1));
    }
}

/// Every line of the engine's output is kept in the log, as plain text:
/// whatever it says, whatever run it is of, and whatever the engine does.
pub proof fn every_output_line_is_kept(
    m: &mut EngineManager,
    line: &str,
    port: u16,
    generation: u64,
    reply: LineReply,
)
    requires
        call_ensures(EngineManager::read_line, (m, line, port, generation), reply),
    ensures
        grew_by(old(m)@.log, final(m)@.log, plain(line@)),
        reply.logged@ == plain(line@),
        final(m)@.generation == old(m)@.generation,
        final(m)@.setup_running == old(m)@.setup_running,
        final(m)@.saved_dir == old(m)@.saved_dir,
        final(m)@.splash_url == old(m)@.splash_url,
{
    if old(m)@.log.len() < 600 {
        assert(final(m)@.log.drop_last() =~= old(m)@.log);
    } else if old(m)@.log.len() == 600 {
        assert(final(m)@.log.drop_last() =~= old(m)@.log.skip(1));
    }
}

/// A line that is kept can be fetched as the last one of the log, of which the
/// state tells the length.
pub proof fn kept_line_can_be_fetched(
    m: &mut EngineManager,
    line: &str,
    port: u16,
    generation: u64,
    reply: LineReply,
    after: EngineManager,
    view: EngineStateView,
    lines: Vec<String>,
)
    requires
        old(m)@.log.len() <= 600,
        call_ensures(EngineManager::read_line, (m, line, port, generation), reply),
        after == *final(m),
        call_ensures(EngineManager::snapshot, (&after,), view),
        call_ensures(EngineManager::log_lines, (&after, 0), lines),
    ensures
        lines@.len() == view.log_len,
        view.log_len == if old(m)@.log.len() < 600 {
            old(m)@.log.len() + 1
        } else {
            600
        },
        lines@.last()@ == plain(line@),
{
    every_output_line_is_kept(m, line, port, generation, reply);
    log_is_fetched_from_a_line(after, 0, lines);
    assert(final(m)@.log.drop_last().len() + 1 == final(m)@.log.len());
}

/// `reply` tells that the engine became ready at `url`, and shows it.
pub open spec fn tells_ready(reply: ReadyReply, m: ManagerModel, url: Seq<char>) -> bool {
    &&& reply.debug@ == "[dsh-desktop] engine ready at "@ + url
    &&& reply.url@ == url
    &&& shows(reply.view, m)
}

/// The engine became ready at `url`, and is otherwise as it was.
pub open spec fn became_ready(before: EngineModel, after: EngineModel, url: Seq<char>) -> bool {
    &&& after.phase == Phase::Ready
    &&& after.url == Some(url)
    &&& after.error is None
    &&& after.port == before.port && after.mode == before.mode
    &&& after.exit_code == before.exit_code
    &&& after.setup_needed == before.setup_needed && after.setup_active == before.setup_active
}

/// A line of the current run that announces its port makes a starting engine
/// ready there. No other line does anything to the engine.
pub proof fn announcing_line_makes_ready(
    m: &mut EngineManager,
    line: &str,
    port: u16,
    generation: u64,
    reply: LineReply,
    found: Option<String>,
)
    requires
        call_ensures(EngineManager::read_line, (m, line, port, generation), reply),
        call_ensures(extract_local_url, (line, port), found),
    ensures
        match found {
            Some(url) if generation == old(m)@.generation && old(m)@.engine.phase
                == Phase::Starting => {
                &&& became_ready(old(m)@.engine, final(m)@.engine, url@)
                &&& reply.ready matches Some(r) && tells_ready(r, final(m)@, url@)
            },
            _ => final(m)@.engine == old(m)@.engine && reply.ready is None,
        },
{
}

/// A starting engine is ready where its current run was found to serve, and
/// the window is sent there. What is found of another run, or of an engine
/// that is not starting, does nothing.
pub proof fn finding_makes_ready(
    m: &mut EngineManager,
    url: String,
    generation: u64,
    reply: Option<ReadyReply>,
)
    requires
        call_ensures(EngineManager::mark_ready, (m, url, generation), reply),
    ensures
        if generation == old(m)@.generation && old(m)@.engine.phase == Phase::Starting {
            &&& became_ready(old(m)@.engine, final(m)@.engine, url@)
            &&& only_engine_differs(old(m)@, final(m)@)
            &&& reply matches Some(r) && tells_ready(r, final(m)@, url@)
        } else {
            final(m)@ == old(m)@ && reply is None
        },
{
}

/// The process of a run that ends by itself ends the current run: a ready
/// engine has stopped, and a starting one has failed, which is told with the
/// exit code. The code is kept, and the window returns to the splash page. The
/// end of another run, or of one that is over, does nothing.
pub proof fn end_of_the_process_is_told(
    m: &mut EngineManager,
    generation: u64,
    exit_code: Option<i32>,
    number: String,
    reply: Option<Transition>,
)
    requires
        call_ensures(EngineManager::on_child_exit, (m, generation, exit_code), reply),
        exit_code matches Some(code) ==> call_ensures(signed_decimal_string, (code,), number),
    ensures
        ({
            let before = old(m)@.engine;
            let after = final(m)@.engine;
            let told = match exit_code {
                Some(_) => number@,
                None => "unknown"@,
            };
            if generation == old(m)@.generation && (before.phase == Phase::Starting || before.phase
                == Phase::Ready) {
                &&& before.phase == Phase::Ready ==> after.phase == Phase::Stopped && after.error
                    == before.error
                &&& before.phase == Phase::Starting ==> after.phase == Phase::Error && after.error
                    == Some(
                    "The engine exited before the Web UI became ready (code "@ + told
                        + "). Check the log for details."@,
                )
                &&& after.exit_code == exit_code
                &&& after.url == before.url && after.port == before.port && after.mode
                    == before.mode
                &&& after.setup_needed == before.setup_needed && after.setup_active
                    == before.setup_active
                &&& only_engine_differs(old(m)@, final(m)@)
                &&& reply matches Some(t) && shows(t.view, final(m)@) && t.navigation is Splash
            } else {
                final(m)@ == old(m)@ && reply is None
            }
        }),
{
}

/// The run number that follows `generation`.
pub open spec fn next_number(generation: u64) -> u64 {
    if generation == 0xffff_ffff_ffff_ffff {
        0
    } else {
        (generation + 1) as u64
    }
}

/// A stop on request takes an engine that runs, starting as much as ready, to
/// the phase Stopped, without an error or an exit code. One that does not run
/// keeps its phase and what it told of itself. Either way no setup is left,
/// and what the run that was current still reports is stale.
pub proof fn stop_on_request_stops(
    m: &mut EngineManager,
    between: &mut EngineManager,
    transition: Transition,
)
    requires
        call_ensures(EngineManager::stop, (m,), ()),
        *old(between) == *final(m),
        call_ensures(EngineManager::finish_stop, (between,), transition),
    ensures
        ({
            let before = old(m)@;
            let after = final(between)@;
            &&& before.engine.phase == Phase::Starting || before.engine.phase == Phase::Ready ==> {
                &&& after.engine.phase == Phase::Stopped
                &&& after.engine.error is None
                &&& after.engine.exit_code is None
            }
            &&& before.engine.phase != Phase::Starting && before.engine.phase != Phase::Ready ==> {
                &&& after.engine.phase == before.engine.phase
                &&& after.engine.error == before.engine.error
                &&& after.engine.exit_code == before.engine.exit_code
            }
            &&& after.engine.url == before.engine.url && after.engine.port == before.engine.port
            &&& after.engine.mode == before.engine.mode
            &&& after.engine.setup_needed == before.engine.setup_needed
            &&& !after.engine.setup_active && !after.setup_running
            &&& after.generation == next_number(before.generation)
            &&& after.log == before.log
            &&& after.saved_dir == before.saved_dir
            &&& after.splash_url == before.splash_url
            &&& shows(transition.view, after)
            &&& if before.engine.phase == Phase::Ready {
                transition.navigation is Splash
            } else {
                transition.navigation is Stay
            }
        }),
{
}

/// The stop takes effect in two parts. Its beginning makes the current run
/// stale and gives up the setup, and its end changes the engine alone.
pub proof fn stop_takes_effect_in_two_parts(
    m: &mut EngineManager,
    n: &mut EngineManager,
    transition: Transition,
)
    requires
        call_ensures(EngineManager::stop, (m,), ()),
        call_ensures(EngineManager::finish_stop, (n,), transition),
    ensures
        final(m)@.engine == old(m)@.engine,
        final(m)@.log == old(m)@.log,
        final(m)@.generation == next_number(old(m)@.generation),
        !final(m)@.setup_running,
        final(m)@.saved_dir == old(m)@.saved_dir,
        final(m)@.splash_url == old(m)@.splash_url,
        only_engine_differs(old(n)@, final(n)@),
{
}

/// A start is met at once while the engine runs, is refused while a setup
/// does, and otherwise asks for a port. The request alone changes nothing and
/// is told to nobody.
pub proof fn start_request_is_met_refused_or_begun(m: &mut EngineManager, reply: StartReply)
    requires
        call_ensures(EngineManager::start, (m, StartEvent::Requested), reply),
    ensures
        final(m)@ == old(m)@,
        reply.debug is None && reply.transition is None && reply.logged is None,
        if old(m)@.engine.phase == Phase::Starting || old(m)@.engine.phase == Phase::Ready {
            reply.action matches StartAction::Finish(r) && r is Ok
        } else if old(m)@.setup_running {
            reply.action matches StartAction::Finish(Err(e)) && e@
                == "engine setup is running; wait for it to finish"@
        } else {
            reply.action is PickPort
        },
{
}

/// A start goes on with the port that was picked. Without one it ends with the
/// reason, and leaves the engine as it is.
pub proof fn start_goes_on_with_the_picked_port(
    m: &mut EngineManager,
    outcome: PortOutcome,
    picked: Result<u16, String>,
    reply: StartReply,
)
    requires
        call_ensures(pick_free_port, (outcome,), picked),
        call_ensures(EngineManager::start, (m, StartEvent::PortPicked(outcome)), reply),
    ensures
        final(m)@ == old(m)@,
        reply.transition is None && reply.logged is None,
        match picked {
            Ok(p) => reply.debug is None && (reply.action matches StartAction::Survey { port }
                && port == p),
            Err(reason) => {
                &&& reply.debug matches Some(d) && d@ == "[dsh-desktop] start error: "@ + reason@
                &&& reply.action matches StartAction::Finish(Err(e)) && e@ == reason@
            },
        },
{
}

/// `reply` ends a start with the message `e`, after which the engine failed
/// with that message. The debug log tells it behind `heading`, and the window
/// leaves the web UI should it be shown.
pub open spec fn start_fails(
    before: ManagerModel,
    after: ManagerModel,
    reply: StartReply,
    heading: Seq<char>,
    e: Seq<char>,
) -> bool {
    &&& after.engine.phase == Phase::Error
    &&& after.engine.error == Some(e)
    &&& after.engine.url == before.engine.url && after.engine.port == before.engine.port
    &&& after.engine.mode == before.engine.mode && after.engine.exit_code
        == before.engine.exit_code
    &&& after.engine.setup_active == before.engine.setup_active
    &&& only_engine_differs(before, after)
    &&& reply.debug matches Some(d) && d@ == heading + e
    &&& reply.transition matches Some(t) && shows(t.view, after) && if before.engine.phase
        == Phase::Ready {
        t.navigation is Splash
    } else {
        t.navigation is Stay
    }
    &&& reply.logged is None
    &&& reply.action matches StartAction::Finish(Err(told)) && told@ == e
}

/// What was learned for a start leads to the plan that is resolved out of it,
/// for the same port. Without a plan the start fails with the reason, and the
/// setup is offered when there is a checkout that is not built.
pub proof fn start_follows_the_resolved_plan(
    m: &mut EngineManager,
    port: u16,
    survey: Survey,
    resolved: Result<EnginePlan, String>,
    reply: StartReply,
)
    requires
        call_ensures(
            resolve_plan,
            (port, survey.node, survey.checkout, survey.config_dir, survey.platform),
            resolved,
        ),
        call_ensures(EngineManager::start, (m, StartEvent::Surveyed { port, survey }), reply),
    ensures
        match resolved {
            Ok(p) => {
                &&& final(m)@ == old(m)@
                &&& reply.debug is None && reply.transition is None && reply.logged is None
                &&& reply.action matches StartAction::Spawn { port: q, plan } && {
                    &&& q == port
                    &&& plan.program@ == p.program@
                    &&& texts(plan.args@) == texts(p.args@)
                    &&& plan.dir == p.dir
                    &&& plan.cwd@ == p.cwd@
                    &&& plan.mode@ == p.mode@
                }
            },
            Err(e) => {
                &&& start_fails(
                    old(m)@,
                    final(m)@,
                    reply,
                    "[dsh-desktop] resolve_plan error: "@,
                    e@,
                )
                &&& final(m)@.engine.setup_needed == (survey.checkout matches Some(c)
                    && c.facts.cli_source && !c.facts.cli_build)
            },
        },
{
}

/// An engine process that could not be started, or whose output cannot be
/// read, ends the start with the reason.
pub proof fn failed_spawn_is_told(
    m: &mut EngineManager,
    port: u16,
    plan: EnginePlan,
    outcome: SpawnOutcome,
    reply: StartReply,
)
    requires
        !(outcome is Running),
        call_ensures(EngineManager::start, (m, StartEvent::Spawned { port, plan, outcome }), reply),
    ensures
        start_fails(
            old(m)@,
            final(m)@,
            reply,
            "[dsh-desktop] spawn error: "@,
            match outcome {
                SpawnOutcome::NotStarted(e) => "failed to start engine ("@ + plan.program@ + "): "@
                    + e@,
                SpawnOutcome::NoStdout => "engine stdout unavailable"@,
                _ => "engine stderr unavailable"@,
            },
        ),
        final(m)@.engine.setup_needed == old(m)@.engine.setup_needed,
{
}

/// An engine process that runs begins a new run: the engine is starting, on
/// the port and in the mode that were planned, and nothing is left of what was
/// told before. It is followed on that port and under the number of the new
/// run, and the log tells of it.
pub proof fn started_process_begins_a_run(
    m: &mut EngineManager,
    port: u16,
    plan: EnginePlan,
    pid: u32,
    reply: StartReply,
)
    requires
        call_ensures(
            EngineManager::start,
            (m, StartEvent::Spawned { port, plan, outcome: SpawnOutcome::Running { pid } }),
            reply,
        ),
    ensures
        ({
            let after = final(m)@;
            let begun = ManagerModel { log: old(m)@.log, ..after };
            &&& after.engine.phase == Phase::Starting
            &&& after.engine.port == Some(port)
            &&& after.engine.mode == Some(plan.mode@)
            &&& after.engine.url is None && after.engine.error is None
            &&& after.engine.exit_code is None
            &&& !after.engine.setup_needed && !after.engine.setup_active
            &&& after.generation == next_number(old(m)@.generation)
            &&& after.setup_running == old(m)@.setup_running
            &&& after.saved_dir == old(m)@.saved_dir
            &&& after.splash_url == old(m)@.splash_url
            &&& reply.debug is None
            &&& reply.transition matches Some(t) && shows(t.view, begun) && if old(
                m,
            )@.engine.phase == Phase::Ready {
                t.navigation is Splash
            } else {
                t.navigation is Stay
            }
            &&& reply.action matches StartAction::Watch { port: p, generation } && p == port
                && generation == after.generation
            &&& exists|number: Seq<char>, on: Seq<char>|
                {
                    &&& #[trigger] is_numeral_of(number, pid as nat)
                    &&& #[trigger] is_numeral_of(on, port as nat)
                    &&& starting_line_is_logged(
                        old(m)@.log,
                        after.log,
                        reply.logged,
                        "[dsh-desktop] starting engine (pid "@ + number + ", port "@ + on + "): "@
                            + plan.mode@ + " (cwd "@ + plan.cwd@ + ")"@,
                    )
                }
        }),
{
    decimal_is_a_numeral(pid as nat);
    decimal_is_a_numeral(port as nat);
    let number = decimal(pid as nat);
    let on = decimal(port as nat);
    let line = "[dsh-desktop] starting engine (pid "@ + number + ", port "@ + on + "): "@
        + plan.mode@ + " (cwd "@ + plan.cwd@ + ")"@;
    if old(m)@.log.len() < 600 {
        assert(final(m)@.log.drop_last() =~= old(m)@.log);
    } else if old(m)@.log.len() == 600 {
        assert(final(m)@.log.drop_last() =~= old(m)@.log.skip(1));
    }
    assert(is_numeral_of(number, pid as nat) && is_numeral_of(on, port as nat));
    assert(starting_line_is_logged(old(m)@.log, final(m)@.log, reply.logged, line));
}

/// The plain text of `line` was added to the log, and is handed out.
pub open spec fn starting_line_is_logged(
    before: Seq<Seq<char>>,
    after: Seq<Seq<char>>,
    logged: Option<String>,
    line: Seq<char>,
) -> bool {
    grew_by(before, after, plain(line)) && opt_text(logged) == Some(plain(line))
}

/// A request for a setup is refused while another one runs, and while the
/// engine does, and then changes nothing. Otherwise it takes the place of the
/// one setup and asks for the engine directory.
pub proof fn setup_request_is_refused_or_taken(m: &mut EngineManager, reply: SetupReply)
    requires
        call_ensures(EngineManager::setup_engine, (m, SetupRequest::Requested), reply),
    ensures
        reply.transition is None,
        if old(m)@.setup_running {
            &&& final(m)@ == old(m)@
            &&& reply.action matches SetupAction::Refuse(e) && e@
                == "engine setup is already running"@
        } else if old(m)@.engine.phase == Phase::Starting || old(m)@.engine.phase == Phase::Ready {
            &&& final(m)@ == old(m)@
            &&& reply.action matches SetupAction::Refuse(e) && e@
                == "the engine is running; stop it before running setup"@
        } else {
            &&& final(m)@ == (ManagerModel { setup_running: true, ..old(m)@ })
            &&& reply.action is Locate
        },
{
}

/// A setup runs in a directory that holds the sources. The shell is then shown
/// that it does, and an error is cleared. Without such a directory the request
/// is refused with the reason, and gives up the place that it took.
pub proof fn setup_runs_in_a_checkout(
    m: &mut EngineManager,
    checkout: Option<Checkout>,
    reply: SetupReply,
)
    requires
        call_ensures(EngineManager::setup_engine, (m, SetupRequest::Located { checkout }), reply),
    ensures
        match checkout {
            Some(c) if c.facts.cli_source => {
                let before = old(m)@.engine;
                let after = final(m)@.engine;
                &&& reply.action is Run
                &&& after.setup_active && after.setup_needed
                &&& after.error is None
                &&& after.phase == before.phase && after.url == before.url
                &&& after.port == before.port && after.mode == before.mode
                &&& after.exit_code == before.exit_code
                &&& only_engine_differs(old(m)@, final(m)@)
                &&& reply.transition matches Some(t) && shows(t.view, final(m)@)
                    && t.navigation is Stay
            },
            Some(c) => {
                &&& reply.action matches SetupAction::Refuse(e) && e@ == c.dir@
                    + " is not a deepseek-harness checkout (missing apps/cli/src/bin.ts)"@
                &&& reply.transition is None
                &&& final(m)@ == (ManagerModel { setup_running: false, ..old(m)@ })
            },
            None => {
                &&& reply.action matches SetupAction::Refuse(e) && e@
                    == "no engine checkout configured: set an engine directory in the shell settings first"@
                &&& reply.transition is None
                &&& final(m)@ == (ManagerModel { setup_running: false, ..old(m)@ })
            },
        },
{
}

/// The end of a setup leaves its place. One that succeeded is no longer
/// needed, turns a failed engine into an idle one without an error, and leads
/// to a start. One that failed is still needed, and leads to nothing.
pub proof fn end_of_the_setup_is_told(m: &mut EngineManager, success: bool, reply: FinishReply)
    requires
        call_ensures(EngineManager::finish_setup, (m, success), reply),
    ensures
        ({
            let before = old(m)@.engine;
            let after = final(m)@.engine;
            &&& reply.start == success
            &&& !final(m)@.setup_running
            &&& !after.setup_active
            &&& after.setup_needed == !success
            &&& if success && before.phase == Phase::Error {
                after.phase == Phase::Idle && after.error is None
            } else {
                after.phase == before.phase && after.error == before.error
            }
            &&& after.url == before.url && after.port == before.port && after.mode == before.mode
            &&& after.exit_code == before.exit_code
            &&& final(m)@.log == old(m)@.log
            &&& final(m)@.generation == old(m)@.generation
            &&& final(m)@.saved_dir == old(m)@.saved_dir
            &&& final(m)@.splash_url == old(m)@.splash_url
            &&& shows(reply.transition.view, final(m)@)
            &&& reply.transition.navigation is Stay
        }),
{
}

/// Settings that are set are in force, and change nothing else. A new engine
/// directory is taken over once it is saved, and then the engine is to be
/// restarted. One that is not saved is told with the step that failed, and
/// changes nothing.
pub proof fn saved_directory_is_taken_over(
    m: &mut EngineManager,
    settings: Settings,
    n: &mut EngineManager,
    updated: Settings,
    outcome: SaveOutcome,
    r: Result<Restart, String>,
)
    requires
        call_ensures(EngineManager::set_settings, (m, settings), ()),
        call_ensures(EngineManager::directory_saved, (n, updated, outcome), r),
    ensures
        final(m)@ == (ManagerModel { saved_dir: opt_text(settings.engine_dir), ..old(m)@ }),
        outcome is Saved ==> {
            &&& r is Ok
            &&& final(n)@ == (ManagerModel { saved_dir: opt_text(updated.engine_dir), ..old(n)@ })
        },
        !(outcome is Saved) ==> final(n)@ == old(n)@,
        match outcome {
            SaveOutcome::Saved => true,
            SaveOutcome::NoConfigDir(reason) => r matches Err(e) && e@
                == "cannot resolve app config dir: "@ + reason@,
            SaveOutcome::DirNotCreated(reason) => r matches Err(e) && e@
                == "cannot create config dir: "@ + reason@,
            SaveOutcome::NotSerialized(reason) => r matches Err(e) && e@
                == "cannot serialize settings: "@ + reason@,
            SaveOutcome::NotWritten(reason) => r matches Err(e) && e@
                == "cannot write settings: "@ + reason@,
        },
{
}

/// The health probe looks at the port for as long as its run is the current
/// one and its time is not over. An open port is the engine's address on it,
/// and a closed one is looked at again.
pub proof fn health_probe_waits_for_the_port(
    m: EngineManager,
    port: u16,
    generation: u64,
    event: HealthEvent,
    action: HealthAction,
    url: String,
)
    requires
        call_ensures(EngineManager::watch_health, (&m, port, generation, event), action),
        call_ensures(local_url, (port,), url),
    ensures
        match event {
            HealthEvent::Tick { in_time } => if in_time && generation == m@.generation {
                action is Connect
            } else {
                action is GiveUp
            },
            HealthEvent::Probed { connected } => if connected {
                action matches HealthAction::Ready(at) && at@ == url@
            } else {
                action is Pause
            },
        },
{
}

/// The process watcher looks at the process for as long as its run is the
/// current one. The end of the process is reported with its code. A process
/// that runs is looked at again, one that cannot be looked at is forgotten,
/// and one that is gone is given up.
pub proof fn process_watcher_waits_for_the_end(
    m: EngineManager,
    generation: u64,
    event: WaitEvent,
    action: WaitAction,
)
    requires
        call_ensures(EngineManager::watch_child, (&m, generation, event), action),
    ensures
        match event {
            WaitEvent::Tick => if generation == m@.generation {
                action is Poll
            } else {
                action is GiveUp
            },
            WaitEvent::Polled(ChildPoll::Exited(code)) => action matches WaitAction::Report(c) && c
                == code,
            WaitEvent::Polled(ChildPoll::Running) => action matches WaitAction::Pause { forget }
                && !forget,
            WaitEvent::Polled(ChildPoll::Unknown) => action matches WaitAction::Pause { forget }
                && forget,
            WaitEvent::Polled(ChildPoll::Missing) => action is GiveUp,
        },
{
}

} // verus!
