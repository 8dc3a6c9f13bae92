//! The engine manager: one engine lifecycle, from the request to start it to
//! its end.
//!
//! The manager decides and the shell acts. Each method takes what the shell
//! was asked for or has observed, and says what is to be published, logged
//! and done next.

use vstd::prelude::*;
use crate::ansi::{plain, strip_ansi};
use crate::local_url::{announces, extract_local_url, local_address, local_url};
use crate::plan::{
    not_a_checkout, not_a_checkout_message, planned, resolve_plan, EnginePlan, PlanModel,
};
use crate::process::{pick_free_port, Platform, PortOutcome};
use crate::settings::{save, save_message, SaveOutcome, Settings};
use crate::source::{is_checkout, lacks_build, setup_needed, Checkout};
use crate::state::{
    apply, boundary, changed, destination, early_exit_error, exited, idle, is_running, readied,
    view_of, Change, Destination, EngineInner, EngineModel, EngineStateView, Navigation, Phase,
    StateModel, Transition, TransitionModel,
};
use crate::text::{copy_text, copy_texts, decimal, decimal_string, fails_with, opt_text, texts};

verus! {

/// Rolling log line cap kept in memory for the shell log panel.
pub const LOG_CAP: usize = 600;

/// The file in the app config directory that collects the debug log.
pub const DEBUG_LOG_FILE: &'static str = "engine-debug.log";

/// How long the health probe waits for the Web UI to come up, in seconds.
pub const READY_TIMEOUT_SECS: u64 = 120;

/// How long one health probe may take, in milliseconds.
pub const PROBE_TIMEOUT_MILLIS: u64 = 400;

/// The pause between two health probes, in milliseconds.
pub const PROBE_PAUSE_MILLIS: u64 = 400;

/// The pause between two looks at the engine process, in milliseconds.
pub const POLL_PAUSE_MILLIS: u64 = 500;

/// Owns the state of the one engine that the shell runs.
pub struct EngineManager {
    inner: EngineInner,
    log: Vec<String>,
    generation: u64,
    setup_running: bool,
    settings: Settings,
    splash_url: Option<String>,
}

/// The content of an `EngineManager`.
pub ghost struct ManagerModel {
    pub engine: EngineModel,
    /// The last lines of the log.
    pub log: Seq<Seq<char>>,
    /// The number of the current run. What belongs to another run is stale.
    pub generation: u64,
    /// A setup was asked for and has not come to an end.
    pub setup_running: bool,
    /// The engine directory in the settings.
    pub saved_dir: Option<Seq<char>>,
    pub splash_url: Option<Seq<char>>,
}

impl ManagerModel {
    pub open spec fn wf(self) -> bool {
        &&& self.engine.consistent()
        &&& self.log.len() <= LOG_CAP
    }

    /// What the shell shows of this.
    pub open spec fn state(self) -> StateModel {
        StateModel { engine: self.engine, log_len: self.log.len() }
    }
}

impl View for EngineManager {
    type V = ManagerModel;

    closed spec fn view(&self) -> ManagerModel {
        ManagerModel {
            engine: self.inner@,
            log: texts(self.log@),
            generation: self.generation,
            setup_running: self.setup_running,
            saved_dir: opt_text(self.settings.engine_dir),
            splash_url: opt_text(self.splash_url),
        }
    }
}

/// The log once `line` was added: the last `LOG_CAP` lines.
pub open spec fn logged(log: Seq<Seq<char>>, line: Seq<char>) -> Seq<Seq<char>> {
    let all = log.push(line);
    if all.len() <= LOG_CAP {
        all
    } else {
        all.skip(all.len() - LOG_CAP)
    }
}

/// The lines of the log from number `from` on.
pub open spec fn lines_from(log: Seq<Seq<char>>, from: nat) -> Seq<Seq<char>> {
    if from >= log.len() {
        Seq::empty()
    } else {
        log.skip(from as int)
    }
}

/// What is published when the engine changes from the state in `before`.
pub open spec fn published(before: ManagerModel, after: ManagerModel) -> TransitionModel {
    TransitionModel {
        state: after.state(),
        to: destination(before.engine, after.engine),
    }
}

/// The manager after a change of the engine.
pub open spec fn with_change(m: ManagerModel, change: Change) -> ManagerModel {
    ManagerModel { engine: changed(m.engine, change), ..m }
}

/// What was learned about the machine for a start.
#[derive(Debug)]
pub struct Survey {
    /// The outcome of `resolve_node`.
    pub node: Result<String, String>,
    /// The engine directory, if there is one.
    pub checkout: Option<Checkout>,
    /// The app config directory, or the reason why it is unknown.
    pub config_dir: Result<String, String>,
    pub platform: Platform,
}

/// What came of starting the engine process.
#[derive(Debug)]
pub enum SpawnOutcome {
    /// It could not be started, for the given reason.
    NotStarted(String),
    /// Its output cannot be read.
    NoStdout,
    /// Its error output cannot be read.
    NoStderr,
    Running { pid: u32 },
}

/// A step of a start, as the shell reports it.
#[derive(Debug)]
pub enum StartEvent {
    Requested,
    PortPicked(PortOutcome),
    Surveyed { port: u16, survey: Survey },
    Spawned { port: u16, plan: EnginePlan, outcome: SpawnOutcome },
}

/// What a start needs next.
#[derive(Debug)]
pub enum StartAction {
    /// The start is over, with the given result.
    Finish(Result<(), String>),
    /// Bind a listener to a free port.
    PickPort,
    /// Learn what a plan for `port` depends on.
    Survey { port: u16 },
    /// Start the engine process.
    Spawn { port: u16, plan: EnginePlan },
    /// The engine process runs: follow its output, its port and its end as
    /// run number `generation`. The start is over, with success.
    Watch { port: u16, generation: u64 },
}

/// The content of a `StartAction`.
pub ghost enum StartActionModel {
    Finish(Result<(), Seq<char>>),
    PickPort,
    Survey { port: u16 },
    Spawn { port: u16, plan: PlanModel },
    Watch { port: u16, generation: u64 },
}

impl View for StartAction {
    type V = StartActionModel;

    open spec fn view(&self) -> StartActionModel {
        match *self {
            StartAction::Finish(Ok(())) => StartActionModel::Finish(Ok(())),
            StartAction::Finish(Err(e)) => StartActionModel::Finish(Err(e@)),
            StartAction::PickPort => StartActionModel::PickPort,
            StartAction::Survey { port } => StartActionModel::Survey { port },
            StartAction::Spawn { port, plan } => StartActionModel::Spawn { port, plan: plan@ },
            StartAction::Watch { port, generation } => StartActionModel::Watch {
                port,
                generation,
            },
        }
    }
}

/// What the shell does with a step of a start.
#[derive(Debug)]
pub struct StartReply {
    /// A line for the debug log.
    pub debug: Option<String>,
    /// A new state to publish.
    pub transition: Option<Transition>,
    /// A line that was added to the log.
    pub logged: Option<String>,
    pub action: StartAction,
}

/// The content of a `StartReply`.
pub ghost struct StartReplyModel {
    pub debug: Option<Seq<char>>,
    pub transition: Option<TransitionModel>,
    pub logged: Option<Seq<char>>,
    pub action: StartActionModel,
}

impl View for StartReply {
    type V = StartReplyModel;

    open spec fn view(&self) -> StartReplyModel {
        StartReplyModel {
            debug: opt_text(self.debug),
            transition: match self.transition {
                Some(t) => Some(t@),
                None => None,
            },
            logged: opt_text(self.logged),
            action: self.action@,
        }
    }
}

/// A reply that asks for `action` and has nothing to tell.
pub open spec fn quiet_reply(action: StartActionModel) -> StartReplyModel {
    StartReplyModel { debug: None, transition: None, logged: None, action }
}

/// A request to start is met at once while the engine is running, and refused
/// while a setup is. Otherwise the start begins.
pub open spec fn start_requested(m: ManagerModel) -> StartReplyModel {
    quiet_reply(
        if m.engine.running() {
            StartActionModel::Finish(Ok(()))
        } else if m.setup_running {
            StartActionModel::Finish(Err("engine setup is running; wait for it to finish"@))
        } else {
            StartActionModel::PickPort
        },
    )
}

/// A start that ends with the message `e` before it had a port. It leaves the
/// state as it is.
pub open spec fn port_failed(e: Seq<char>) -> StartReplyModel {
    StartReplyModel {
        debug: Some("[dsh-desktop] start error: "@ + e),
        ..quiet_reply(StartActionModel::Finish(Err(e)))
    }
}

/// A start goes on once it has a port.
pub open spec fn start_port_picked(outcome: PortOutcome) -> StartReplyModel {
    match outcome {
        PortOutcome::Bound(port) => quiet_reply(StartActionModel::Survey { port }),
        PortOutcome::NotBound(e) => port_failed("cannot reserve a port: "@ + e@),
        PortOutcome::NoAddress(e) => port_failed("cannot read reserved port: "@ + e@),
    }
}

/// The state after a start failed with the message `e`.
pub open spec fn start_failed(m: ManagerModel, e: Seq<char>) -> ManagerModel {
    ManagerModel {
        engine: EngineModel { phase: Phase::Error, error: Some(e), ..m.engine },
        ..m
    }
}

/// A failed start publishes its message, and the window leaves the web UI
/// should it be shown.
pub open spec fn start_failed_reply(
    before: ManagerModel,
    after: ManagerModel,
    debug: Seq<char>,
    e: Seq<char>,
) -> StartReplyModel {
    StartReplyModel {
        debug: Some(debug + e),
        transition: Some(published(before, after)),
        logged: None,
        action: StartActionModel::Finish(Err(e)),
    }
}

/// The plan that a survey leads to, or why there is none.
pub open spec fn surveyed_plan(port: u16, survey: Survey) -> Result<PlanModel, Seq<char>> {
    planned(port, survey.node, survey.checkout, survey.config_dir, survey.platform)
}

/// The state after a survey: without a plan the start failed, and the shell
/// offers the setup when that is what the checkout lacks.
pub open spec fn after_survey(m: ManagerModel, port: u16, survey: Survey) -> ManagerModel {
    match surveyed_plan(port, survey) {
        Ok(_) => m,
        Err(e) => {
            let failed = start_failed(m, e);
            ManagerModel {
                engine: EngineModel {
                    setup_needed: lacks_build(survey.checkout),
                    ..failed.engine
                },
                ..failed
            }
        },
    }
}

/// The message for an engine process that could not be started.
pub open spec fn spawn_message(plan: EnginePlan, outcome: SpawnOutcome) -> Seq<char>
    recommends
        !(outcome is Running),
{
    match outcome {
        SpawnOutcome::NotStarted(e) => "failed to start engine ("@ + plan.program@ + "): "@ + e@,
        SpawnOutcome::NoStdout => "engine stdout unavailable"@,
        SpawnOutcome::NoStderr => "engine stderr unavailable"@,
        SpawnOutcome::Running { .. } => Seq::empty(),
    }
}

/// The line that tells of a started engine.
pub open spec fn starting_line(pid: u32, port: u16, plan: EnginePlan) -> Seq<char> {
    "[dsh-desktop] starting engine (pid "@ + decimal(pid as nat) + ", port "@ + decimal(
        port as nat,
    ) + "): "@ + plan.mode@ + " (cwd "@ + plan.cwd@ + ")"@
}

/// The manager once a new run began: everything of the run before is stale,
/// and the engine is starting.
pub open spec fn run_begun(m: ManagerModel, port: u16, mode: Seq<char>) -> ManagerModel {
    ManagerModel {
        engine: EngineModel {
            phase: Phase::Starting,
            port: Some(port),
            mode: Some(mode),
            ..idle()
        },
        generation: m.generation.wrapping_add(1),
        ..m
    }
}

/// The manager after a step of a start.
pub open spec fn after_start(m: ManagerModel, event: StartEvent) -> ManagerModel {
    match event {
        StartEvent::Requested => m,
        StartEvent::PortPicked(_) => m,
        StartEvent::Surveyed { port, survey } => after_survey(m, port, survey),
        StartEvent::Spawned { port, plan, outcome } => match outcome {
            SpawnOutcome::Running { pid } => ManagerModel {
                log: logged(m.log, plain(starting_line(pid, port, plan))),
                ..run_begun(m, port, plan.mode@)
            },
            _ => start_failed(m, spawn_message(plan, outcome)),
        },
    }
}

/// The reply to a step of a start.
pub open spec fn start_reply(m: ManagerModel, event: StartEvent) -> StartReplyModel {
    match event {
        StartEvent::Requested => start_requested(m),
        StartEvent::PortPicked(outcome) => start_port_picked(outcome),
        StartEvent::Surveyed { port, survey } => match surveyed_plan(port, survey) {
            Ok(plan) => quiet_reply(StartActionModel::Spawn { port, plan }),
            Err(e) => start_failed_reply(
                m,
                after_start(m, event),
                "[dsh-desktop] resolve_plan error: "@,
                e,
            ),
        },
        StartEvent::Spawned { port, plan, outcome } => match outcome {
            SpawnOutcome::Running { pid } => StartReplyModel {
                debug: None,
                transition: Some(published(m, run_begun(m, port, plan.mode@))),
                logged: Some(plain(starting_line(pid, port, plan))),
                action: StartActionModel::Watch {
                    port,
                    generation: m.generation.wrapping_add(1),
                },
            },
            _ => start_failed_reply(
                m,
                after_start(m, event),
                "[dsh-desktop] spawn error: "@,
                spawn_message(plan, outcome),
            ),
        },
    }
}

/// The manager once a stop began: nothing of the current run counts any more,
/// and a setup that runs is given up.
pub open spec fn stop_begun(m: ManagerModel) -> ManagerModel {
    ManagerModel { generation: m.generation.wrapping_add(1), setup_running: false, ..m }
}

/// An order to restart the engine, once: to stop it and then to start it. What
/// the start answers is the answer to the request.
#[derive(Clone, Copy, Debug, PartialEq, Eq, Structural)]
pub struct Restart;

/// The manager after an attempt to save new settings. Only saved settings are
/// taken over.
pub open spec fn after_save(
    m: ManagerModel,
    engine_dir: Option<Seq<char>>,
    outcome: SaveOutcome,
) -> ManagerModel {
    if outcome is Saved {
        ManagerModel { saved_dir: engine_dir, ..m }
    } else {
        m
    }
}

/// A step of a request for a setup, as the shell reports it.
#[derive(Debug)]
pub enum SetupRequest {
    Requested,
    /// The engine directory was looked up and looked at.
    Located { checkout: Option<Checkout> },
}

/// What a request for a setup needs next.
#[derive(Debug)]
pub enum SetupAction {
    /// The request is refused, for the given reason.
    Refuse(String),
    /// Look up the engine directory.
    Locate,
    /// Run the setup in the engine directory. The request is granted.
    Run,
}

/// The content of a `SetupAction`.
pub ghost enum SetupActionModel {
    Refuse(Seq<char>),
    Locate,
    Run,
}

impl View for SetupAction {
    type V = SetupActionModel;

    open spec fn view(&self) -> SetupActionModel {
        match *self {
            SetupAction::Refuse(e) => SetupActionModel::Refuse(e@),
            SetupAction::Locate => SetupActionModel::Locate,
            SetupAction::Run => SetupActionModel::Run,
        }
    }
}

/// What the shell does with a step of a request for a setup.
#[derive(Debug)]
pub struct SetupReply {
    /// A new state to publish.
    pub transition: Option<Transition>,
    pub action: SetupAction,
}

/// The decision on a step of a request for a setup. There is one setup at a
/// time, none while the engine runs, and none without a checkout.
pub open spec fn setup_action(m: ManagerModel, request: SetupRequest) -> SetupActionModel {
    match request {
        SetupRequest::Requested => if m.setup_running {
            SetupActionModel::Refuse("engine setup is already running"@)
        } else if m.engine.running() {
            SetupActionModel::Refuse("the engine is running; stop it before running setup"@)
        } else {
            SetupActionModel::Locate
        },
        SetupRequest::Located { checkout: None } => SetupActionModel::Refuse(
            "no engine checkout configured: set an engine directory in the shell settings first"@,
        ),
        SetupRequest::Located { checkout: Some(c) } => if c.facts.checkout() {
            SetupActionModel::Run
        } else {
            SetupActionModel::Refuse(not_a_checkout_message(c.dir@))
        },
    }
}

/// The manager after a step of a request for a setup. A request holds the
/// place of the one setup from the start, and gives it up when it is refused.
pub open spec fn after_setup_request(m: ManagerModel, request: SetupRequest) -> ManagerModel {
    match (request, setup_action(m, request)) {
        (SetupRequest::Requested, SetupActionModel::Locate) => ManagerModel {
            setup_running: true,
            ..m
        },
        (SetupRequest::Requested, _) => m,
        (SetupRequest::Located { .. }, SetupActionModel::Run) => with_change(
            m,
            Change::SetupBegun,
        ),
        (SetupRequest::Located { .. }, _) => ManagerModel { setup_running: false, ..m },
    }
}

/// What the shell does at the end of a setup.
#[derive(Debug)]
pub struct FinishReply {
    /// A new state to publish.
    pub transition: Transition,
    /// Start the engine.
    pub start: bool,
}

/// The manager at the end of a setup.
pub open spec fn setup_over(m: ManagerModel, success: bool) -> ManagerModel {
    ManagerModel { setup_running: false, ..with_change(m, Change::SetupFinished { success }) }
}

/// An engine that became ready.
#[derive(Debug)]
pub struct ReadyReply {
    /// A line for the debug log.
    pub debug: String,
    /// A new state to publish.
    pub view: EngineStateView,
    /// The address that the window goes to.
    pub url: String,
}

/// Run number `generation` is the current one, and waits to become ready.
pub open spec fn awaits_ready(m: ManagerModel, generation: u64) -> bool {
    generation == m.generation && m.engine.phase == Phase::Starting
}

/// The manager once run number `generation` was found to serve at `url`. The
/// first finding of the current run counts.
pub open spec fn after_ready(m: ManagerModel, url: Seq<char>, generation: u64) -> ManagerModel {
    if awaits_ready(m, generation) {
        ManagerModel { engine: readied(m.engine, url), ..m }
    } else {
        m
    }
}

/// What the shell is told of a finding that run number `generation` serves at
/// `url`: the new state, when the finding counts.
pub open spec fn ready_told(
    m: ManagerModel,
    url: Seq<char>,
    generation: u64,
    reply: Option<ReadyReply>,
) -> bool {
    match reply {
        Some(r) => {
            &&& awaits_ready(m, generation)
            &&& r.debug@ == "[dsh-desktop] engine ready at "@ + url
            &&& r.view@ == after_ready(m, url, generation).state()
            &&& r.url@ == url
        },
        None => !awaits_ready(m, generation),
    }
}

/// The manager once the process of run number `generation` ended by itself.
pub open spec fn after_exit(
    m: ManagerModel,
    generation: u64,
    exit_code: Option<i32>,
) -> ManagerModel {
    if generation == m.generation {
        ManagerModel { engine: exited(m.engine, exit_code), ..m }
    } else {
        m
    }
}

/// What the shell does with a line of the engine's output.
#[derive(Debug)]
pub struct LineReply {
    /// The line that was added to the log.
    pub logged: String,
    /// The engine became ready.
    pub ready: Option<ReadyReply>,
}

/// The manager after a line of the engine's output.
pub open spec fn after_line(
    m: ManagerModel,
    line: Seq<char>,
    port: u16,
    generation: u64,
) -> ManagerModel {
    let with_line = ManagerModel { log: logged(m.log, plain(line)), ..m };
    if announces(line, port as nat) {
        after_ready(with_line, local_address(port as nat), generation)
    } else {
        with_line
    }
}

/// What the health probe observes.
#[derive(Clone, Copy, Debug)]
pub enum HealthEvent {
    /// It is about to look at the port, within its time or after it.
    Tick { in_time: bool },
    /// It tried to connect to the port.
    Probed { connected: bool },
}

/// What the health probe does next.
#[derive(Debug)]
pub enum HealthAction {
    GiveUp,
    Connect,
    /// The engine serves at the given address. The probe is over.
    Ready(String),
    /// Wait for `PROBE_PAUSE_MILLIS`.
    Pause,
}

/// What a look at the engine process shows.
#[derive(Clone, Copy, Debug)]
pub enum ChildPoll {
    /// There is no process.
    Missing,
    Running,
    /// It ended, with the code that the system gives if it gives one.
    Exited(Option<i32>),
    /// The system does not say.
    Unknown,
}

/// What the process watcher observes.
#[derive(Clone, Copy, Debug)]
pub enum WaitEvent {
    /// It is about to look at the process.
    Tick,
    Polled(ChildPoll),
}

/// What the process watcher does next.
#[derive(Clone, Copy, Debug, PartialEq, Eq, Structural)]
pub enum WaitAction {
    GiveUp,
    /// Look at the process.
    Poll,
    /// Forget the process and report its end. The watch is over.
    Report(Option<i32>),
    /// Wait for `POLL_PAUSE_MILLIS`, after forgetting the process if so told.
    Pause { forget: bool },
}

impl EngineManager {
    /// The manager is well-formed: see `ManagerModel::wf`.
    pub open spec fn wf(&self) -> bool {
        self@.wf()
    }

    /// A manager without an engine. `splash_url` is the page to return to
    /// when the engine stops.
    pub fn new(settings: Settings, splash_url: Option<String>) -> (manager: EngineManager)
        ensures
            manager.wf(),
            manager@ == (ManagerModel {
                engine: idle(),
                log: Seq::empty(),
                generation: 0,
                setup_running: false,
                saved_dir: opt_text(settings.engine_dir),
                splash_url: opt_text(splash_url),
            }),
    {
        let manager = EngineManager {
            inner: EngineInner::default(),
            log: Vec::new(),
            generation: 0,
            setup_running: false,
            settings,
            splash_url,
        };
        assert(texts(manager.log@) =~= Seq::empty());
        manager
    }

    /// What the shell shows of the engine.
    pub fn snapshot(&self) -> (view: EngineStateView)
        ensures
            view@ == self@.state(),
    {
        view_of(&self.inner, self.log.len())
    }

    /// The lines of the log from number `from` on.
    pub fn log_lines(&self, from: usize) -> (lines: Vec<String>)
        ensures
            texts(lines@) == lines_from(self@.log, from as nat),
    {
        if from >= self.log.len() {
            let lines: Vec<String> = Vec::new();
            assert(texts(lines@) =~= Seq::empty());
            lines
        } else {
            let lines = copy_texts(&self.log, from);
            assert(texts(lines@) =~= texts(self.log@).skip(from as int));
            lines
        }
    }

    pub fn set_settings(&mut self, settings: Settings)
        ensures
            final(self)@ == (ManagerModel {
                saved_dir: opt_text(settings.engine_dir),
                ..old(self)@
            }),
    {
        self.settings = settings;
    }

    /// Decides on a new engine directory, once it was tried to save it with
    /// the settings. Saved settings are taken over, and the engine is
    /// restarted with them. Without that the request fails, and the settings
    /// in force and the engine stay as they are.
    pub fn directory_saved(
        &mut self,
        updated: Settings,
        outcome: SaveOutcome,
    ) -> (r: Result<Restart, String>)
        requires
            old(self).wf(),
        ensures
            final(self).wf(),
            final(self)@ == after_save(old(self)@, opt_text(updated.engine_dir), outcome),
            match save_message(outcome) {
                Some(message) => fails_with(r, message),
                None => r == Ok::<Restart, String>(Restart),
            },
            r is Ok <==> outcome is Saved,
    {
        match save(outcome) {
            Ok(()) => {
                self.set_settings(updated);
                Ok(Restart)
            },
            Err(e) => Err(e),
        }
    }

    /// The settings in force.
    pub fn settings(&self) -> (settings: &Settings)
        ensures
            opt_text(settings.engine_dir) == self@.saved_dir,
    {
        &self.settings
    }

    /// The page to show when the engine is not ready.
    pub fn navigate_splash(&self) -> (url: Option<String>)
        ensures
            opt_text(url) == self@.splash_url,
    {
        copy_text(&self.splash_url)
    }

    /// Whether run number `generation` is the current one.
    fn is_current(&self, generation: u64) -> (b: bool)
        ensures
            b == (generation == self@.generation),
    {
        generation == self.generation
    }

    /// Applies a change to the engine, and moves the window across the Ready
    /// boundary (into the web UI, or back to the shell).
    fn transition(&mut self, change: Change) -> (t: Transition)
        ensures
            final(self)@ == with_change(old(self)@, change),
            t@ == published(old(self)@, final(self)@),
    {
        let was_ready = self.inner.phase == Phase::Ready;
        apply(&mut self.inner, change);
        let navigation = boundary(was_ready, &self.inner);
        assert(navigation@ == destination(old(self)@.engine, self@.engine));
        Transition { view: self.snapshot(), navigation }
    }

    /// Adds a line to the log, as plain text. Returns that text, for the debug
    /// log and for the shell.
    pub fn push_log(&mut self, line: &str) -> (clean: String)
        requires
            old(self).wf(),
        ensures
            final(self).wf(),
            clean@ == plain(line@),
            final(self)@ == (ManagerModel {
                log: logged(old(self)@.log, plain(line@)),
                ..old(self)@
            }),
    {
        let clean = strip_ansi(line);
        let ghost before = self.log@;
        if self.log.len() >= LOG_CAP {
            self.log.remove(0);
            assert(texts(self.log@) =~= texts(before).skip(1));
        }
        self.log.push(clean.clone());
        assert(texts(self.log@) =~= logged(texts(before), clean@));
        clean
    }

    /// Starts (or restarts from a terminal phase) the engine server, one step
    /// at a time: the shell reports each step and is told what comes next.
    pub fn start(&mut self, event: StartEvent) -> (reply: StartReply)
        requires
            old(self).wf(),
        ensures
            final(self).wf(),
            final(self)@ == after_start(old(self)@, event),
            reply@ == start_reply(old(self)@, event),
    {
        match event {
            StartEvent::Requested => {
                let action = if is_running(&self.inner) {
                    StartAction::Finish(Ok(()))
                } else if self.setup_running {
                    StartAction::Finish(
                        Err(String::from_str("engine setup is running; wait for it to finish")),
                    )
                } else {
                    StartAction::PickPort
                };
                StartReply { debug: None, transition: None, logged: None, action }
            },
            StartEvent::PortPicked(outcome) => match pick_free_port(outcome) {
                Ok(port) => StartReply {
                    debug: None,
                    transition: None,
                    logged: None,
                    action: StartAction::Survey { port },
                },
                Err(e) => StartReply {
                    debug: Some(String::from_str("[dsh-desktop] start error: ").concat(e.as_str())),
                    transition: None,
                    logged: None,
                    action: StartAction::Finish(Err(e)),
                },
            },
            StartEvent::Surveyed { port, survey } => {
                let setup_needed = setup_needed(&survey.checkout);
                match resolve_plan(
                    port,
                    survey.node,
                    survey.checkout,
                    survey.config_dir,
                    survey.platform,
                ) {
                    Ok(plan) => StartReply {
                        debug: None,
                        transition: None,
                        logged: None,
                        action: StartAction::Spawn { port, plan },
                    },
                    Err(e) => {
                        let transition = self.transition(
                            Change::PlanFailed { error: e.clone(), setup_needed },
                        );
                        StartReply {
                            debug: Some(
                                String::from_str("[dsh-desktop] resolve_plan error: ").concat(
                                    e.as_str(),
                                ),
                            ),
                            transition: Some(transition),
                            logged: None,
                            action: StartAction::Finish(Err(e)),
                        }
                    },
                }
            },
            StartEvent::Spawned { port, plan, outcome } => self.spawn(port, plan, outcome),
        }
    }

    fn fail_spawn(&mut self, e: String) -> (reply: StartReply)
        ensures
            final(self)@ == start_failed(old(self)@, e@),
            reply@ == start_failed_reply(
                old(self)@,
                final(self)@,
                "[dsh-desktop] spawn error: "@,
                e@,
            ),
    {
        let transition = self.transition(Change::SpawnFailed { error: e.clone() });
        StartReply {
            debug: Some(String::from_str("[dsh-desktop] spawn error: ").concat(e.as_str())),
            transition: Some(transition),
            logged: None,
            action: StartAction::Finish(Err(e)),
        }
    }

    /// Takes note of the engine process that was, or was not, started.
    fn spawn(&mut self, port: u16, plan: EnginePlan, outcome: SpawnOutcome) -> (reply: StartReply)
        requires
            old(self).wf(),
        ensures
            final(self).wf(),
            final(self)@ == after_start(old(self)@, StartEvent::Spawned { port, plan, outcome }),
            reply@ == start_reply(old(self)@, StartEvent::Spawned { port, plan, outcome }),
    {
        match outcome {
            SpawnOutcome::NotStarted(e) => self.fail_spawn(
                String::from_str("failed to start engine (").concat(plan.program.as_str()).concat(
                    "): ",
                ).concat(e.as_str()),
            ),
            SpawnOutcome::NoStdout => self.fail_spawn(String::from_str("engine stdout unavailable")),
            SpawnOutcome::NoStderr => self.fail_spawn(String::from_str("engine stderr unavailable")),
            SpawnOutcome::Running { pid } => {
                let generation: u64 = self.generation.wrapping_add(1);
                self.generation = generation;
                let transition = self.transition(Change::Spawned { port, mode: plan.mode.clone() });
                assert(self@ == run_begun(old(self)@, port, plan.mode@));
                let line = String::from_str("[dsh-desktop] starting engine (pid ").concat(
                    decimal_string(pid as u64).as_str(),
                ).concat(", port ").concat(decimal_string(port as u64).as_str()).concat(
                    "): ",
                ).concat(plan.mode.as_str()).concat(" (cwd ").concat(plan.cwd.as_str()).concat(")");
                let clean = self.push_log(line.as_str());
                StartReply {
                    debug: None,
                    transition: Some(transition),
                    logged: Some(clean),
                    action: StartAction::Watch { port, generation },
                }
            },
        }
    }

    /// Begins to stop the engine. The shell then ends the engine process and
    /// that of the setup, and reports it with `finish_stop`.
    pub fn stop(&mut self)
        requires
            old(self).wf(),
        ensures
            final(self).wf(),
            final(self)@ == stop_begun(old(self)@),
    {
        self.generation = self.generation.wrapping_add(1);
        self.setup_running = false;
    }

    /// The processes are gone: the engine is stopped.
    pub fn finish_stop(&mut self) -> (transition: Transition)
        requires
            old(self).wf(),
        ensures
            final(self).wf(),
            final(self)@ == with_change(old(self)@, Change::Stopped),
            transition@ == published(old(self)@, final(self)@),
    {
        self.transition(Change::Stopped)
    }

    /// Prepares a checkout that is not yet installed or built, one step at a
    /// time: the shell reports each step and is told what comes next.
    pub fn setup_engine(&mut self, request: SetupRequest) -> (reply: SetupReply)
        requires
            old(self).wf(),
        ensures
            final(self).wf(),
            final(self)@ == after_setup_request(old(self)@, request),
            reply.action@ == setup_action(old(self)@, request),
            match reply.transition {
                Some(t) => reply.action@ == SetupActionModel::Run && t@ == published(
                    old(self)@,
                    final(self)@,
                ),
                None => reply.action@ != SetupActionModel::Run,
            },
    {
        match request {
            SetupRequest::Requested => {
                let action = if self.setup_running {
                    SetupAction::Refuse(String::from_str("engine setup is already running"))
                } else if is_running(&self.inner) {
                    SetupAction::Refuse(
                        String::from_str("the engine is running; stop it before running setup"),
                    )
                } else {
                    self.setup_running = true;
                    SetupAction::Locate
                };
                SetupReply { transition: None, action }
            },
            SetupRequest::Located { checkout } => match checkout {
                None => {
                    self.setup_running = false;
                    SetupReply {
                        transition: None,
                        action: SetupAction::Refuse(
                            String::from_str(
                                "no engine checkout configured: set an engine directory in the shell settings first",
                            ),
                        ),
                    }
                },
                Some(c) => if !is_checkout(&c.facts) {
                    self.setup_running = false;
                    SetupReply {
                        transition: None,
                        action: SetupAction::Refuse(not_a_checkout(c.dir.as_str())),
                    }
                } else {
                    let transition = self.transition(Change::SetupBegun);
                    SetupReply { transition: Some(transition), action: SetupAction::Run }
                },
            },
        }
    }

    /// Ends a setup. After a successful one the engine is started.
    pub fn finish_setup(&mut self, success: bool) -> (reply: FinishReply)
        requires
            old(self).wf(),
        ensures
            final(self).wf(),
            final(self)@ == setup_over(old(self)@, success),
            reply.transition@ == published(old(self)@, final(self)@),
            reply.start == success,
    {
        self.setup_running = false;
        let transition = self.transition(Change::SetupFinished { success });
        FinishReply { transition, start: success }
    }

    /// Takes note that run number `generation` serves at `url`.
    pub fn mark_ready(&mut self, url: String, generation: u64) -> (reply: Option<ReadyReply>)
        requires
            old(self).wf(),
        ensures
            final(self).wf(),
            final(self)@ == after_ready(old(self)@, url@, generation),
            ready_told(old(self)@, url@, generation, reply),
    {
        if generation != self.generation {
            return None;
        }
        if self.inner.phase != Phase::Starting {
            return None;
        }
        self.inner.phase = Phase::Ready;
        self.inner.url = Some(url.clone());
        self.inner.error = None;
        Some(
            ReadyReply {
                debug: String::from_str("[dsh-desktop] engine ready at ").concat(url.as_str()),
                view: self.snapshot(),
                url,
            },
        )
    }

    /// Takes note that the process of run number `generation` ended by itself.
    /// The end of a running engine brings the window back to the splash page.
    pub fn on_child_exit(&mut self, generation: u64, exit_code: Option<i32>) -> (reply: Option<
        Transition,
    >)
        requires
            old(self).wf(),
        ensures
            final(self).wf(),
            final(self)@ == after_exit(old(self)@, generation, exit_code),
            match reply {
                Some(t) => {
                    &&& generation == old(self)@.generation && old(self)@.engine.running()
                    &&& t@ == (TransitionModel {
                        state: final(self)@.state(),
                        to: Destination::Splash,
                    })
                },
                None => generation != old(self)@.generation || !old(self)@.engine.running(),
            },
    {
        if generation != self.generation {
            return None;
        }
        match self.inner.phase {
            Phase::Ready => {
                self.inner.phase = Phase::Stopped;
            },
            Phase::Starting => {
                self.inner.phase = Phase::Error;
                self.inner.error = Some(early_exit_error(exit_code));
            },
            _ => {
                return None;
            },
        }
        self.inner.exit_code = exit_code;
        Some(Transition { view: self.snapshot(), navigation: Navigation::Splash })
    }

    /// Reads a line of the output of run number `generation`, which is to
    /// serve on `port`.
    pub fn read_line(&mut self, line: &str, port: u16, generation: u64) -> (reply: LineReply)
        requires
            old(self).wf(),
        ensures
            final(self).wf(),
            final(self)@ == after_line(old(self)@, line@, port, generation),
            reply.logged@ == plain(line@),
            announces(line@, port as nat) ==> ready_told(
                (ManagerModel { log: logged(old(self)@.log, plain(line@)), ..old(self)@ }),
                local_address(port as nat),
                generation,
                reply.ready,
            ),
            !announces(line@, port as nat) ==> reply.ready is None,
    {
        let logged = self.push_log(line);
        let ready = match extract_local_url(line, port) {
            Some(url) => self.mark_ready(url, generation),
            None => None,
        };
        LineReply { logged, ready }
    }

    /// Decides for the health probe of run number `generation` on `port`. It
    /// ends with its run, with its time, or once the port is open.
    pub fn watch_health(&self, port: u16, generation: u64, event: HealthEvent) -> (action:
        HealthAction)
        ensures
            match event {
                HealthEvent::Tick { in_time } => action == if in_time && generation
                    == self@.generation {
                    HealthAction::Connect
                } else {
                    HealthAction::GiveUp
                },
                HealthEvent::Probed { connected: true } => match action {
                    HealthAction::Ready(url) => url@ == local_address(port as nat),
                    _ => false,
                },
                HealthEvent::Probed { connected: false } => action == HealthAction::Pause,
            },
    {
        match event {
            HealthEvent::Tick { in_time } => if in_time && self.is_current(generation) {
                HealthAction::Connect
            } else {
                HealthAction::GiveUp
            },
            HealthEvent::Probed { connected } => if connected {
                HealthAction::Ready(local_url(port))
            } else {
                HealthAction::Pause
            },
        }
    }
    /// Decides for the process watcher of run number `generation`. It ends
    /// with its run, or with the process.
    pub fn watch_child(&self, generation: u64, event: WaitEvent) -> (action: WaitAction)
        ensures
            action == match event {
                WaitEvent::Tick => if generation == self@.generation {
                    WaitAction::Poll
                } else {
                    WaitAction::GiveUp
                },
                WaitEvent::Polled(ChildPoll::Missing) => WaitAction::GiveUp,
                WaitEvent::Polled(ChildPoll::Running) => WaitAction::Pause { forget: false },
                WaitEvent::Polled(ChildPoll::Exited(code)) => WaitAction::Report(code),
                WaitEvent::Polled(ChildPoll::Unknown) => WaitAction::Pause { forget: true },
            },
    {
        match event {
            WaitEvent::Tick => if self.is_current(generation) {
                WaitAction::Poll
            } else {
                WaitAction::GiveUp
            },
            WaitEvent::Polled(ChildPoll::Missing) => WaitAction::GiveUp,
            WaitEvent::Polled(ChildPoll::Running) => WaitAction::Pause { forget: false },
            WaitEvent::Polled(ChildPoll::Exited(code)) => WaitAction::Report(code),
            WaitEvent::Polled(ChildPoll::Unknown) => WaitAction::Pause { forget: true },
        }
    }
}

} // verus!
