//! The phases of the engine and what the shell shows of them.

use vstd::prelude::*;
use crate::text::{copy_text, decimal_int, opt_text, signed_decimal_string};

verus! {

/// The event that carries a new state of the engine.
pub const EVENT_STATE: &'static str = "engine://state";

/// The event that carries a line of the log.
pub const EVENT_LOG: &'static str = "engine://log";

/// The event that carries the progress of the setup.
pub const EVENT_SETUP: &'static str = "engine://setup";

#[derive(Clone, Copy, Debug, PartialEq, Eq, Structural)]
pub enum Phase {
    Idle,
    Starting,
    Ready,
    Stopped,
    Error,
}

impl Default for Phase {
    fn default() -> (phase: Phase)
        ensures
            phase == Phase::Idle,
    {
        Phase::Idle
    }
}

/// The state of the engine.
#[derive(Debug)]
pub struct EngineInner {
    pub phase: Phase,
    pub url: Option<String>,
    pub port: Option<u16>,
    pub error: Option<String>,
    pub exit_code: Option<i32>,
    pub mode: Option<String>,
    pub setup_needed: bool,
    pub setup_active: bool,
}

/// The content of an `EngineInner`.
pub ghost struct EngineModel {
    pub phase: Phase,
    pub url: Option<Seq<char>>,
    pub port: Option<u16>,
    pub error: Option<Seq<char>>,
    pub exit_code: Option<i32>,
    pub mode: Option<Seq<char>>,
    pub setup_needed: bool,
    pub setup_active: bool,
}

impl View for EngineInner {
    type V = EngineModel;

    open spec fn view(&self) -> EngineModel {
        EngineModel {
            phase: self.phase,
            url: opt_text(self.url),
            port: self.port,
            error: opt_text(self.error),
            exit_code: self.exit_code,
            mode: opt_text(self.mode),
            setup_needed: self.setup_needed,
            setup_active: self.setup_active,
        }
    }
}

/// The state before the first start.
pub open spec fn idle() -> EngineModel {
    EngineModel {
        phase: Phase::Idle,
        url: None,
        port: None,
        error: None,
        exit_code: None,
        mode: None,
        setup_needed: false,
        setup_active: false,
    }
}

impl Default for EngineInner {
    fn default() -> (inner: EngineInner)
        ensures
            inner@ == idle(),
    {
        EngineInner {
            phase: Phase::default(),
            url: None,
            port: None,
            error: None,
            exit_code: None,
            mode: None,
            setup_needed: false,
            setup_active: false,
        }
    }
}

impl EngineModel {
    /// There is an engine process, as far as the shell knows.
    pub open spec fn running(self) -> bool {
        self.phase == Phase::Starting || self.phase == Phase::Ready
    }

    /// A running engine has a port and a mode, and neither an error nor an
    /// exit code. It has an address once it is ready, and none before.
    pub open spec fn consistent(self) -> bool {
        self.running() ==> {
            &&& self.port is Some
            &&& self.mode is Some
            &&& self.error is None
            &&& self.exit_code is None
            &&& self.url is Some <==> self.phase == Phase::Ready
        }
    }
}

/// What the shell shows of the engine.
#[derive(Clone, Debug)]
pub struct EngineStateView {
    pub phase: Phase,
    pub url: Option<String>,
    pub port: Option<u16>,
    pub error: Option<String>,
    pub exit_code: Option<i32>,
    pub mode: Option<String>,
    pub setup_needed: bool,
    pub setup_active: bool,
    pub log_len: usize,
}

/// The content of an `EngineStateView`.
pub ghost struct StateModel {
    pub engine: EngineModel,
    pub log_len: nat,
}

impl View for EngineStateView {
    type V = StateModel;

    open spec fn view(&self) -> StateModel {
        StateModel {
            engine: EngineModel {
                phase: self.phase,
                url: opt_text(self.url),
                port: self.port,
                error: opt_text(self.error),
                exit_code: self.exit_code,
                mode: opt_text(self.mode),
                setup_needed: self.setup_needed,
                setup_active: self.setup_active,
            },
            log_len: self.log_len as nat,
        }
    }
}

/// The view of a state: all of it, and the length of the log.
pub fn view_of(inner: &EngineInner, log_len: usize) -> (view: EngineStateView)
    ensures
        view@ == (StateModel { engine: inner@, log_len: log_len as nat }),
{
    EngineStateView {
        phase: inner.phase,
        url: copy_text(&inner.url),
        port: inner.port,
        error: copy_text(&inner.error),
        exit_code: inner.exit_code,
        mode: copy_text(&inner.mode),
        setup_needed: inner.setup_needed,
        setup_active: inner.setup_active,
        log_len,
    }
}

/// Whether there is an engine process, as far as the shell knows.
pub fn is_running(inner: &EngineInner) -> (b: bool)
    ensures
        b == inner@.running(),
{
    match inner.phase {
        Phase::Starting | Phase::Ready => true,
        _ => false,
    }
}

/// Something that happened to the engine.
#[derive(Debug)]
pub enum Change {
    /// There is no way to run the engine.
    PlanFailed { error: String, setup_needed: bool },
    /// The engine process could not be started.
    SpawnFailed { error: String },
    /// The engine process was started.
    Spawned { port: u16, mode: String },
    /// The engine was stopped on request.
    Stopped,
    /// The setup of a checkout began.
    SetupBegun,
    /// The setup of a checkout came to an end.
    SetupFinished { success: bool },
}

/// The state after a change.
pub open spec fn changed(m: EngineModel, change: Change) -> EngineModel {
    match change {
        Change::PlanFailed { error, setup_needed } => EngineModel {
            phase: Phase::Error,
            error: Some(error@),
            setup_needed,
            ..m
        },
        Change::SpawnFailed { error } => EngineModel {
            phase: Phase::Error,
            error: Some(error@),
            ..m
        },
        Change::Spawned { port, mode } => EngineModel {
            phase: Phase::Starting,
            port: Some(port),
            mode: Some(mode@),
            ..idle()
        },
        Change::Stopped => if m.running() {
            EngineModel {
                phase: Phase::Stopped,
                exit_code: None,
                error: None,
                setup_active: false,
                ..m
            }
        } else {
            EngineModel { setup_active: false, ..m }
        },
        Change::SetupBegun => EngineModel {
            setup_active: true,
            setup_needed: true,
            error: None,
            ..m
        },
        Change::SetupFinished { success } => if success && m.phase == Phase::Error {
            EngineModel {
                phase: Phase::Idle,
                error: None,
                setup_needed: false,
                setup_active: false,
                ..m
            }
        } else {
            EngineModel { setup_needed: !success, setup_active: false, ..m }
        },
    }
}

/// Applies a change to the state.
pub fn apply(inner: &mut EngineInner, change: Change)
    ensures
        final(inner)@ == changed(old(inner)@, change),
{
    match change {
        Change::PlanFailed { error, setup_needed } => {
            inner.phase = Phase::Error;
            inner.error = Some(error);
            inner.setup_needed = setup_needed;
        },
        Change::SpawnFailed { error } => {
            inner.phase = Phase::Error;
            inner.error = Some(error);
        },
        Change::Spawned { port, mode } => {
            inner.phase = Phase::Starting;
            inner.url = None;
            inner.error = None;
            inner.exit_code = None;
            inner.port = Some(port);
            inner.mode = Some(mode);
            inner.setup_needed = false;
            inner.setup_active = false;
        },
        Change::Stopped => {
            inner.setup_active = false;
            if is_running(inner) {
                inner.phase = Phase::Stopped;
                inner.exit_code = None;
                inner.error = None;
            }
        },
        Change::SetupBegun => {
            inner.setup_active = true;
            inner.setup_needed = true;
            inner.error = None;
        },
        Change::SetupFinished { success } => {
            inner.setup_active = false;
            if success {
                inner.setup_needed = false;
                if inner.phase == Phase::Error {
                    inner.phase = Phase::Idle;
                    inner.error = None;
                }
            } else {
                inner.setup_needed = true;
            }
        },
    }
}

/// The state of an engine that came up at `url`.
pub open spec fn readied(m: EngineModel, url: Seq<char>) -> EngineModel {
    EngineModel { phase: Phase::Ready, url: Some(url), error: None, ..m }
}

/// How an exit code is told to the user.
pub open spec fn exit_code_text(exit_code: Option<i32>) -> Seq<char> {
    match exit_code {
        Some(code) => decimal_int(code as int),
        None => "unknown"@,
    }
}

/// The message for an engine that ended before it was ready.
pub open spec fn early_exit_message(exit_code: Option<i32>) -> Seq<char> {
    "The engine exited before the Web UI became ready (code "@ + exit_code_text(exit_code)
        + "). Check the log for details."@
}

pub fn early_exit_error(exit_code: Option<i32>) -> (message: String)
    ensures
        message@ == early_exit_message(exit_code),
{
    let code = match exit_code {
        Some(code) => signed_decimal_string(code),
        None => String::from_str("unknown"),
    };
    String::from_str("The engine exited before the Web UI became ready (code ").concat(
        code.as_str(),
    ).concat("). Check the log for details.")
}

/// The state after the engine process ended by itself. One that was ready has
/// stopped. One that was still starting has failed.
pub open spec fn exited(m: EngineModel, exit_code: Option<i32>) -> EngineModel {
    match m.phase {
        Phase::Ready => EngineModel { phase: Phase::Stopped, exit_code, ..m },
        Phase::Starting => EngineModel {
            phase: Phase::Error,
            error: Some(early_exit_message(exit_code)),
            exit_code,
            ..m
        },
        _ => m,
    }
}

/// Where the window goes.
#[derive(Debug)]
pub enum Navigation {
    Stay,
    /// To the engine's web UI at the given address.
    Engine(String),
    /// Back to the splash page.
    Splash,
}

/// The content of a `Navigation`.
pub ghost enum Destination {
    Stay,
    Engine(Seq<char>),
    Splash,
}

impl View for Navigation {
    type V = Destination;

    open spec fn view(&self) -> Destination {
        match *self {
            Navigation::Stay => Destination::Stay,
            Navigation::Engine(url) => Destination::Engine(url@),
            Navigation::Splash => Destination::Splash,
        }
    }
}

/// Where the window goes when the state changes from `before` to `after`:
/// into the web UI when the engine becomes ready, and back to the splash page
/// when it no longer is.
pub open spec fn destination(before: EngineModel, after: EngineModel) -> Destination {
    if after.phase == Phase::Ready && before.phase != Phase::Ready {
        match after.url {
            Some(url) => Destination::Engine(url),
            None => Destination::Stay,
        }
    } else if before.phase == Phase::Ready && after.phase != Phase::Ready {
        Destination::Splash
    } else {
        Destination::Stay
    }
}

/// Where the window goes, now that the state is `inner`.
pub fn boundary(was_ready: bool, inner: &EngineInner) -> (to: Navigation)
    ensures
        forall|before: EngineModel|
            was_ready == (before.phase == Phase::Ready) ==> to@ == #[trigger] destination(
                before,
                inner@,
            ),
{
    let is_ready = inner.phase == Phase::Ready;
    if is_ready && !was_ready {
        match &inner.url {
            Some(url) => Navigation::Engine(url.clone()),
            None => Navigation::Stay,
        }
    } else if was_ready && !is_ready {
        Navigation::Splash
    } else {
        Navigation::Stay
    }
}

/// A new state to publish, and where the window goes with it.
#[derive(Debug)]
pub struct Transition {
    pub view: EngineStateView,
    pub navigation: Navigation,
}

/// The content of a `Transition`.
pub ghost struct TransitionModel {
    pub state: StateModel,
    pub to: Destination,
}

impl View for Transition {
    type V = TransitionModel;

    open spec fn view(&self) -> TransitionModel {
        TransitionModel { state: self.view@, to: self.navigation@ }
    }
}

} // verus!
