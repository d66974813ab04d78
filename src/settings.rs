//! The settings record and the choice of the capture directory.
use vstd::prelude::*;

verus! {

/// The persisted settings: the folder captures are read from, and the
/// platform default used when that folder is gone.
#[derive(Debug, Clone, PartialEq, Eq)]
pub struct AppSettings {
    pub capture_folder: String,
    pub default_capture_folder: String,
}

impl AppSettings {
    /// The record written on first run: both folders are the default one.
    pub fn first_run(default_folder: String) -> (r: AppSettings)
        ensures
            r.capture_folder == default_folder,
            r.default_capture_folder == default_folder,
    {
        AppSettings { capture_folder: default_folder.clone(), default_capture_folder: default_folder }
    }
}

/// The settings file as it was found on disk.
#[derive(Debug, Clone, PartialEq, Eq)]
pub enum SettingsFile {
    /// There is no settings file yet.
    Missing,
    /// The file could not be read or did not parse; the message says why.
    Unreadable(String),
    /// The file holds this record.
    Stored(AppSettings),
}

/// What loading the settings comes to.
#[derive(Debug, Clone, PartialEq, Eq)]
pub enum SettingsLoad {
    /// The stored record.
    Loaded(AppSettings),
    /// There is none: the first-run record is to be written and used.
    CreateDefault,
    /// The stored file is corrupt; the failure is the caller's to see.
    Failed(String),
}

/// Where captures are to be read from.
#[derive(Debug, Clone, PartialEq, Eq)]
pub enum CapturesDir {
    /// The configured folder, which exists.
    Configured(String),
    /// The platform default folder.
    Default,
}

pub open spec fn load_of(file: SettingsFile) -> SettingsLoad {
    match file {
        SettingsFile::Missing => SettingsLoad::CreateDefault,
        SettingsFile::Unreadable(e) => SettingsLoad::Failed(e),
        SettingsFile::Stored(s) => SettingsLoad::Loaded(s),
    }
}

pub open spec fn captures_dir_of(
    settings: Result<AppSettings, String>,
    configured_exists: bool,
) -> CapturesDir {
    match settings {
        Ok(s) => if configured_exists {
            CapturesDir::Configured(s.capture_folder)
        } else {
            CapturesDir::Default
        },
        Err(_) => CapturesDir::Default,
    }
}

/// Loading the settings: a stored record is used as it is, a missing file
/// calls for the first-run record, and a corrupt file is an error, never
/// silently reset.
pub fn load_settings(file: SettingsFile) -> (r: SettingsLoad)
    ensures
        r == load_of(file),
{
    match file {
        SettingsFile::Missing => SettingsLoad::CreateDefault,
        SettingsFile::Unreadable(e) => SettingsLoad::Failed(e),
        SettingsFile::Stored(s) => SettingsLoad::Loaded(s),
    }
}

/// The capture directory for the loaded `settings`: the configured folder
/// while it exists (`configured_exists`), else the default folder. A failure
/// to load the settings also falls back to the default. The settings are
/// only read: a stale configured folder stays recorded.
pub fn resolve_captures_dir(settings: &Result<AppSettings, String>, configured_exists: bool) -> (r:
    CapturesDir)
    ensures
        r == captures_dir_of(*settings, configured_exists),
{
    match settings {
        Ok(s) => if configured_exists {
            CapturesDir::Configured(s.capture_folder.clone())
        } else {
            CapturesDir::Default
        },
        Err(_) => CapturesDir::Default,
    }
}

/// When the configured folder is gone the default folder is used, and a
/// stored record, which resolving never writes, still loads as itself with
/// the stale configured folder in it. Reading and parsing the settings file
/// is the caller's work and is not covered here.
pub proof fn lemma_fallback_keeps_settings(s: AppSettings)
    ensures
        captures_dir_of(Ok(s), false) == CapturesDir::Default,
        load_of(SettingsFile::Stored(s)) == SettingsLoad::Loaded(s),
        load_of(SettingsFile::Stored(s))->Loaded_0.capture_folder == s.capture_folder,
{
}

/// A stored record loads back as itself, field for field. That the file
/// written on save parses back to the same record is the caller's
/// serialization work and is not covered here.
pub proof fn lemma_saved_settings_load_back(r: AppSettings)
    ensures
        load_of(SettingsFile::Stored(r)) matches SettingsLoad::Loaded(l) && l.capture_folder
            == r.capture_folder && l.default_capture_folder == r.default_capture_folder,
{
}

} // verus!
