//! Shell settings, which are kept as JSON in the app config directory.

use vstd::prelude::*;
use crate::text::{fails_with, keep_non_blank, non_blank, opt_text};

verus! {

/// The file in the app config directory that holds the settings.
pub const SETTINGS_FILE: &'static str = "settings.json";

#[derive(Clone, Debug)]
pub struct Settings {
    /// Explicit path to a deepseek-harness checkout. When empty the shell
    /// falls back to DSH_ENGINE_DIR, then to a checkout next to the app,
    /// then to the published package via npx.
    pub engine_dir: Option<String>,
}

impl Default for Settings {
    fn default() -> (settings: Settings)
        ensures
            settings.engine_dir is None,
    {
        Settings { engine_dir: None }
    }
}

/// What came of reading the settings file.
pub enum StoredSettings {
    /// The app config directory is unknown.
    NoConfigDir,
    /// There is no such file, or it cannot be read as text.
    Unreadable,
    /// The text is not the JSON of any settings.
    Malformed,
    Parsed(Settings),
}

/// The settings to run with: those that were stored, or the default ones when
/// none could be read.
pub fn load(stored: StoredSettings) -> (settings: Settings)
    ensures
        match stored {
            StoredSettings::Parsed(s) => settings == s,
            _ => settings.engine_dir is None,
        },
{
    match stored {
        StoredSettings::Parsed(s) => s,
        _ => Settings::default(),
    }
}

/// The message for an app config directory that cannot be resolved.
pub open spec fn config_dir_message(e: Seq<char>) -> Seq<char> {
    "cannot resolve app config dir: "@ + e
}

pub fn config_dir_error(e: &str) -> (message: String)
    ensures
        message@ == config_dir_message(e@),
{
    String::from_str("cannot resolve app config dir: ").concat(e)
}

/// How far writing the settings file came. Each failure carries the reason
/// that the system gave.
pub enum SaveOutcome {
    NoConfigDir(String),
    DirNotCreated(String),
    NotSerialized(String),
    NotWritten(String),
    Saved,
}

/// The message for settings that could not be saved, or none when they were.
pub open spec fn save_message(outcome: SaveOutcome) -> Option<Seq<char>> {
    match outcome {
        SaveOutcome::NoConfigDir(e) => Some(config_dir_message(e@)),
        SaveOutcome::DirNotCreated(e) => Some("cannot create config dir: "@ + e@),
        SaveOutcome::NotSerialized(e) => Some("cannot serialize settings: "@ + e@),
        SaveOutcome::NotWritten(e) => Some("cannot write settings: "@ + e@),
        SaveOutcome::Saved => None,
    }
}

/// What the shell is told of an attempt to save the settings.
pub fn save(outcome: SaveOutcome) -> (r: Result<(), String>)
    ensures
        match save_message(outcome) {
            Some(message) => fails_with(r, message),
            None => r is Ok,
        },
{
    match outcome {
        SaveOutcome::NoConfigDir(e) => Err(config_dir_error(e.as_str())),
        SaveOutcome::DirNotCreated(e) => Err(
            String::from_str("cannot create config dir: ").concat(e.as_str()),
        ),
        SaveOutcome::NotSerialized(e) => Err(
            String::from_str("cannot serialize settings: ").concat(e.as_str()),
        ),
        SaveOutcome::NotWritten(e) => Err(
            String::from_str("cannot write settings: ").concat(e.as_str()),
        ),
        SaveOutcome::Saved => Ok(()),
    }
}

/// Replaces the engine directory in `current`. A blank directory clears it.
pub fn set_engine_dir(current: Settings, dir: Option<String>) -> (settings: Settings)
    ensures
        opt_text(settings.engine_dir) == non_blank(opt_text(dir)),
{
    let mut settings = current;
    settings.engine_dir = keep_non_blank(dir);
    settings
}

} // verus!
