//! Where the engine comes from.

use vstd::prelude::*;
use crate::settings::Settings;
use crate::text::{copy_text, keep_non_blank, non_blank, opt_text, texts};

verus! {

/// The environment variable that names an engine directory.
pub const ENGINE_DIR_VAR: &'static str = "DSH_ENGINE_DIR";

/// The name of a checkout that stands next to the app.
pub const CHECKOUT_NAME: &'static str = "deepseek-harness";

/// A place in an engine directory that is looked at.
#[derive(Clone, Copy, Debug, PartialEq, Eq, Structural)]
pub enum Probe {
    /// The source of the command line entry point.
    CliSource,
    /// The installed dependencies.
    Modules,
    /// The built command line entry point.
    CliBuild,
}

/// The path of a probed place, as components below the engine directory.
pub open spec fn probe_components(probe: Probe) -> Seq<Seq<char>> {
    match probe {
        Probe::CliSource => seq!["apps"@, "cli"@, "src"@, "bin.ts"@],
        Probe::Modules => seq!["node_modules"@],
        Probe::CliBuild => seq!["apps"@, "cli"@, "lib"@, "bin.js"@],
    }
}

/// Where below an engine directory `probe` looks.
pub fn probe_path(probe: Probe) -> (path: Vec<String>)
    ensures
        texts(path@) == probe_components(probe),
{
    let mut path: Vec<String> = Vec::new();
    match probe {
        Probe::CliSource => {
            path.push(String::from_str("apps"));
            path.push(String::from_str("cli"));
            path.push(String::from_str("src"));
            path.push(String::from_str("bin.ts"));
        },
        Probe::Modules => {
            path.push(String::from_str("node_modules"));
        },
        Probe::CliBuild => {
            path.push(String::from_str("apps"));
            path.push(String::from_str("cli"));
            path.push(String::from_str("lib"));
            path.push(String::from_str("bin.js"));
        },
    }
    assert(texts(path@) =~= probe_components(probe));
    path
}

/// Whether `probe` asks for a directory. The others ask for a file.
pub fn probe_is_dir(probe: Probe) -> (b: bool)
    ensures
        b == (probe == Probe::Modules),
{
    match probe {
        Probe::Modules => true,
        _ => false,
    }
}

/// What was found in an engine directory: one answer for each probe.
#[derive(Clone, Copy, Debug)]
pub struct CheckoutFacts {
    pub cli_source: bool,
    pub modules: bool,
    pub cli_build: bool,
}

impl CheckoutFacts {
    /// The directory holds the sources of the harness.
    pub open spec fn checkout(self) -> bool {
        self.cli_source
    }

    /// The sources are installed and built.
    pub open spec fn ready(self) -> bool {
        self.modules && self.cli_build
    }
}

/// Whether a directory is a deepseek-harness checkout.
pub fn is_checkout(facts: &CheckoutFacts) -> (b: bool)
    ensures
        b == facts.checkout(),
{
    facts.cli_source
}

/// An engine directory and what was found in it.
#[derive(Debug)]
pub struct Checkout {
    /// The directory, as it is shown.
    pub dir: String,
    /// The path of the built command line entry point in it.
    pub cli_bin: String,
    pub facts: CheckoutFacts,
}

/// The checkout is there but still has to be built.
pub open spec fn lacks_build(checkout: Option<Checkout>) -> bool {
    match checkout {
        Some(c) => c.facts.checkout() && !c.facts.cli_build,
        None => false,
    }
}

/// Whether the shell has to offer the setup action.
pub fn setup_needed(checkout: &Option<Checkout>) -> (b: bool)
    ensures
        b == lacks_build(*checkout),
{
    match checkout {
        Some(c) => is_checkout(&c.facts) && !c.facts.cli_build,
        None => false,
    }
}

/// The directory that a nearby checkout is looked for from.
#[derive(Clone, Copy, Debug, PartialEq, Eq, Structural)]
pub enum Base {
    /// The working directory.
    WorkingDir,
    /// The directory of the app's binary.
    BinaryDir,
}

/// A place next to the app where a checkout may stand: the directory named
/// `CHECKOUT_NAME` some levels above `base`.
#[derive(Clone, Copy, Debug, PartialEq, Eq, Structural)]
pub struct Candidate {
    pub base: Base,
    pub levels_up: u8,
}

/// The places below `base` that are looked at, nearest first, up to the one
/// `levels` levels up.
pub open spec fn candidates_from(base: Base, levels: u8) -> Seq<Candidate> {
    Seq::new(levels as nat + 1, |i: int| Candidate { base, levels_up: i as u8 })
}

/// The places that are looked at, in order, given which directories are
/// known.
pub open spec fn candidates(working_dir: bool, binary_dir: bool) -> Seq<Candidate> {
    (if working_dir {
        candidates_from(Base::WorkingDir, 1)
    } else {
        Seq::empty()
    }) + (if binary_dir {
        candidates_from(Base::BinaryDir, 3)
    } else {
        Seq::empty()
    })
}

fn push_candidates(places: &mut Vec<Candidate>, base: Base, levels: u8)
    ensures
        final(places)@ == old(places)@ + candidates_from(base, levels),
{
    let mut up: u8 = 0;
    while up < levels
        invariant
            up <= levels,
            places@ == old(places)@ + candidates_from(base, levels).take(up as int),
        decreases levels - up,
    {
        places.push(Candidate { base, levels_up: up });
        up = up + 1;
        assert(places@ =~= old(places)@ + candidates_from(base, levels).take(up as int));
    }
    places.push(Candidate { base, levels_up: levels });
    assert(places@ =~= old(places)@ + candidates_from(base, levels));
}

/// Lists the places next to the app where a checkout may stand.
/// `working_dir` and `binary_dir` say which of the two directories are known.
pub fn dev_candidates(working_dir: bool, binary_dir: bool) -> (places: Vec<Candidate>)
    ensures
        places@ == candidates(working_dir, binary_dir),
{
    let mut places: Vec<Candidate> = Vec::new();
    if working_dir {
        push_candidates(&mut places, Base::WorkingDir, 1);
    }
    if binary_dir {
        push_candidates(&mut places, Base::BinaryDir, 3);
    }
    assert(places@ =~= candidates(working_dir, binary_dir));
    places
}

/// One of the looked at places is a checkout.
pub open spec fn some_checkout(found: Seq<CheckoutFacts>) -> bool {
    exists|i: int| 0 <= i < found.len() && (#[trigger] found[i]).checkout()
}

/// Dev convenience: the first of the looked at places that is a checkout.
/// `found` holds what was found in each of them.
pub fn find_dev_checkout(found: &Vec<CheckoutFacts>) -> (r: Option<usize>)
    ensures
        match r {
            Some(i) => i < found@.len() && found@[i as int].checkout() && forall|j: int|
                0 <= j < i ==> !(#[trigger] found@[j]).checkout(),
            None => forall|j: int| 0 <= j < found@.len() ==> !(#[trigger] found@[j]).checkout(),
        },
        r is Some <==> some_checkout(found@),
{
    for i in 0..found.len()
        invariant
            forall|j: int| 0 <= j < i ==> !(#[trigger] found@[j]).checkout(),
    {
        if is_checkout(&found[i]) {
            return Some(i);
        }
    }
    None
}

/// An engine directory, by where it was named.
#[derive(Debug)]
pub enum EngineDir {
    /// The directory in the shell settings.
    Saved(String),
    /// The directory in the environment.
    Environment(String),
    /// One of the places next to the app, by its number.
    Nearby(usize),
}

/// The content of an `EngineDir`.
pub ghost enum EngineDirModel {
    Saved(Seq<char>),
    Environment(Seq<char>),
    Nearby(usize),
}

impl View for EngineDir {
    type V = EngineDirModel;

    open spec fn view(&self) -> EngineDirModel {
        match *self {
            EngineDir::Saved(dir) => EngineDirModel::Saved(dir@),
            EngineDir::Environment(dir) => EngineDirModel::Environment(dir@),
            EngineDir::Nearby(i) => EngineDirModel::Nearby(i),
        }
    }
}

/// The engine directory: the saved one, else the one in the environment, else
/// a checkout next to the app, else none. Blank names count as absent.
pub open spec fn chosen_dir(
    saved: Option<Seq<char>>,
    environment: Option<Seq<char>>,
    nearby: Option<usize>,
) -> Option<EngineDirModel> {
    match (non_blank(saved), non_blank(environment), nearby) {
        (Some(dir), _, _) => Some(EngineDirModel::Saved(dir)),
        (None, Some(dir), _) => Some(EngineDirModel::Environment(dir)),
        (None, None, Some(i)) => Some(EngineDirModel::Nearby(i)),
        (None, None, None) => None,
    }
}

/// Engine source resolution order: shell setting, DSH_ENGINE_DIR, then a
/// `deepseek-harness` checkout next to the app (dev convenience).
pub fn engine_dir(
    settings: &Settings,
    environment: Option<String>,
    nearby: Option<usize>,
) -> (dir: Option<EngineDir>)
    ensures
        chosen_dir(opt_text(settings.engine_dir), opt_text(environment), nearby) == match dir {
            Some(d) => Some(d@),
            None => None,
        },
{
    match keep_non_blank(copy_text(&settings.engine_dir)) {
        Some(dir) => Some(EngineDir::Saved(dir)),
        None => match keep_non_blank(environment) {
            Some(dir) => Some(EngineDir::Environment(dir)),
            None => match nearby {
                Some(i) => Some(EngineDir::Nearby(i)),
                None => None,
            },
        },
    }
}

} // verus!
