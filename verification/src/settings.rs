//! The persisted settings: where they live, what they default to, and which
//! directories must exist once they have been loaded or saved.
//!
//! The caller asks the platform for its data and document directories, reads
//! and writes the settings file and creates the directories; the functions
//! here say which paths those are and what a failure means.

use crate::error::{text_views, BackendError, ErrorView};
use crate::reconcile::Mode;
use crate::store::{init_database, spec_examples, SettingsTable};
use crate::text::{join_path, spec_join};
use vstd::prelude::*;

verus! {

/// The settings that the front-end persists.
#[derive(Clone, Debug, PartialEq, Eq)]
pub struct AppSettings {
    /// Where generated documents are copied to.
    pub output_directory: String,
    /// Where the field files live, when fields are kept as files.
    pub config_directory: Option<String>,
}

/// The mathematical value of [`AppSettings`].
pub struct SettingsView {
    pub output_directory: Seq<char>,
    pub config_directory: Option<Seq<char>>,
}

impl View for AppSettings {
    type V = SettingsView;

    open spec fn view(&self) -> SettingsView {
        SettingsView {
            output_directory: self.output_directory@,
            config_directory: match self.config_directory {
                Some(dir) => Some(dir@),
                None => None,
            },
        }
    }
}

/// The stages at which handling the settings file can fail.
#[derive(Clone, Copy, Debug, PartialEq, Eq, Structural)]
pub enum SettingsStage {
    Read,
    Parse,
    Serialize,
    Write,
}

/// The application's directory below a platform directory.
pub open spec fn spec_app_dir(platform_dir: Seq<char>) -> Seq<char> {
    spec_join(platform_dir, "InvoiceSplitter"@)
}

/// The settings file below the application's data directory.
pub open spec fn spec_settings_path(app_data: Seq<char>) -> Seq<char> {
    spec_join(app_data, "settings.json"@)
}

/// The canonical database below the application's data directory.
pub open spec fn spec_database_path(app_data: Seq<char>) -> Seq<char> {
    spec_join(app_data, "invoices.db"@)
}

/// The default directory of the field files.
pub open spec fn spec_config_dir(app_data: Seq<char>) -> Seq<char> {
    spec_join(app_data, "config"@)
}

/// The application's data directory, given the platform's, if it has one.
pub open spec fn spec_app_data_dir(data_dir: Option<Seq<char>>) -> Result<Seq<char>, ErrorView> {
    match data_dir {
        Some(dir) => Ok(spec_app_dir(dir)),
        None => Err(ErrorView::SettingsIoError { cause: "Could not determine data directory"@ }),
    }
}

/// The default output directory, given the platform's document directory.
pub open spec fn spec_default_output_dir(document_dir: Option<Seq<char>>) -> Result<
    Seq<char>,
    ErrorView,
> {
    match document_dir {
        Some(dir) => Ok(spec_app_dir(dir)),
        None => Err(
            ErrorView::SettingsIoError { cause: "Could not determine documents directory"@ },
        ),
    }
}

/// The settings of a first run. The config directory is part of them only
/// where fields are kept as files.
pub open spec fn spec_default_settings(
    document_dir: Option<Seq<char>>,
    data_dir: Option<Seq<char>>,
    mode: Mode,
) -> Result<SettingsView, ErrorView> {
    match spec_default_output_dir(document_dir) {
        Err(error) => Err(error),
        Ok(output_directory) => match mode {
            Mode::SharedDatabase => Ok(SettingsView { output_directory, config_directory: None }),
            Mode::MirroredFiles => match spec_app_data_dir(data_dir) {
                Err(error) => Err(error),
                Ok(app_data) => Ok(
                    SettingsView {
                        output_directory,
                        config_directory: Some(spec_config_dir(app_data)),
                    },
                ),
            },
        },
    }
}

/// The directories that must exist for these settings, output first.
pub open spec fn spec_directories(settings: SettingsView) -> Seq<Seq<char>> {
    match settings.config_directory {
        Some(dir) => seq![settings.output_directory, dir],
        None => seq![settings.output_directory],
    }
}

/// The view of an optional text.
pub open spec fn spec_optional(text: Option<&str>) -> Option<Seq<char>> {
    match text {
        Some(t) => Some(t@),
        None => None,
    }
}

/// The failure reported while the platform names no data directory.
fn no_data_directory() -> (error: BackendError)
    ensures
        error@ == (ErrorView::SettingsIoError { cause: "Could not determine data directory"@ }),
{
    BackendError::SettingsIoError { cause: String::from_str("Could not determine data directory") }
}

/// The application's data directory below the platform's data directory
/// `data_dir`. It fails while the platform names none.
pub fn get_app_data_dir(data_dir: Option<&str>) -> (dir: Result<String, BackendError>)
    ensures
        dir is Ok <==> data_dir is Some,
        dir is Ok ==> dir.unwrap()@ == spec_app_dir(data_dir.unwrap()@),
        dir is Err ==> dir.unwrap_err()@ == (ErrorView::SettingsIoError {
            cause: "Could not determine data directory"@,
        }),
{
    match data_dir {
        Some(base) => Ok(join_path(base, "InvoiceSplitter")),
        None => Err(no_data_directory()),
    }
}

/// The default output directory below the platform's document directory
/// `document_dir`. It fails while the platform names none.
pub fn get_default_output_dir(document_dir: Option<&str>) -> (dir: Result<String, BackendError>)
    ensures
        dir is Ok <==> document_dir is Some,
        dir is Ok ==> dir.unwrap()@ == spec_app_dir(document_dir.unwrap()@),
        dir is Err ==> dir.unwrap_err()@ == (ErrorView::SettingsIoError {
            cause: "Could not determine documents directory"@,
        }),
{
    match document_dir {
        Some(base) => Ok(join_path(base, "InvoiceSplitter")),
        None => Err(
            BackendError::SettingsIoError {
                cause: String::from_str("Could not determine documents directory"),
            },
        ),
    }
}

/// The default directory of the field files below the application's data
/// directory.
pub fn get_config_dir(app_data: &str) -> (dir: String)
    ensures
        dir@ == spec_config_dir(app_data@),
{
    join_path(app_data, "config")
}

/// The path of the settings file, given the platform's data directory.
pub fn get_settings_path(data_dir: Option<&str>) -> (path: Result<String, BackendError>)
    ensures
        path is Ok <==> data_dir is Some,
        path is Ok ==> path.unwrap()@ == spec_settings_path(spec_app_dir(data_dir.unwrap()@)),
        path is Err ==> path.unwrap_err()@ == (ErrorView::SettingsIoError {
            cause: "Could not determine data directory"@,
        }),
{
    match get_app_data_dir(data_dir) {
        Ok(app_data) => Ok(join_path(app_data.as_str(), "settings.json")),
        Err(error) => Err(error),
    }
}

/// The path of the canonical database, given the platform's data directory.
pub fn get_database_path(data_dir: Option<&str>) -> (path: Result<String, BackendError>)
    ensures
        path is Ok <==> data_dir is Some,
        path is Ok ==> path.unwrap()@ == spec_database_path(spec_app_dir(data_dir.unwrap()@)),
        path is Err ==> path.unwrap_err()@ == (ErrorView::SettingsIoError {
            cause: "Could not determine data directory"@,
        }),
{
    match get_app_data_dir(data_dir) {
        Ok(app_data) => Ok(join_path(app_data.as_str(), "invoices.db")),
        Err(error) => Err(error),
    }
}

/// Computes the settings of a first run from the platform's directories.
pub fn default_settings(document_dir: Option<&str>, data_dir: Option<&str>, mode: Mode) -> (defaults:
    Result<AppSettings, BackendError>)
    ensures
        defaults is Ok ==> spec_default_settings(
            spec_optional(document_dir),
            spec_optional(data_dir),
            mode,
        ) == Ok::<SettingsView, ErrorView>(defaults.unwrap()@),
        defaults is Err ==> spec_default_settings(
            spec_optional(document_dir),
            spec_optional(data_dir),
            mode,
        ) == Err::<SettingsView, ErrorView>(defaults.unwrap_err()@),
{
    let output_directory = match get_default_output_dir(document_dir) {
        Ok(dir) => dir,
        Err(error) => {
            return Err(error);
        },
    };
    match mode {
        Mode::SharedDatabase => Ok(AppSettings { output_directory, config_directory: None }),
        Mode::MirroredFiles => match get_app_data_dir(data_dir) {
            Ok(app_data) => Ok(
                AppSettings {
                    output_directory,
                    config_directory: Some(get_config_dir(app_data.as_str())),
                },
            ),
            Err(error) => Err(error),
        },
    }
}

/// The directories that have to exist for these settings, in the order in
/// which they are created.
pub fn directories(settings: &AppSettings) -> (dirs: Vec<String>)
    ensures
        text_views(dirs@) == spec_directories(settings@),
{
    let mut dirs: Vec<String> = Vec::new();
    dirs.push(settings.output_directory.clone());
    match &settings.config_directory {
        Some(dir) => {
            dirs.push(dir.clone());
        },
        None => {},
    }
    assert(text_views(dirs@) =~= spec_directories(settings@));
    dirs
}

/// What loading the settings came to.
#[derive(Clone, Debug, PartialEq, Eq)]
pub struct Loaded {
    /// The settings in force.
    pub settings: AppSettings,
    /// Whether they were just defaulted and still have to be saved.
    pub created: bool,
    /// The directories that the settings name. The caller makes sure of each
    /// before the load counts as done, whether the settings are new or not.
    pub directories: Vec<String>,
}

/// What a load gives: the settings in force and whether they are new.
pub open spec fn spec_loaded(
    persisted: Option<SettingsView>,
    document_dir: Option<Seq<char>>,
    data_dir: Option<Seq<char>>,
    mode: Mode,
) -> Result<(SettingsView, bool), ErrorView> {
    match persisted {
        Some(settings) => Ok((settings, false)),
        None => match spec_default_settings(document_dir, data_dir, mode) {
            Ok(settings) => Ok((settings, true)),
            Err(error) => Err(error),
        },
    }
}

/// The view of optional settings.
pub open spec fn spec_optional_settings(settings: Option<AppSettings>) -> Option<SettingsView> {
    match settings {
        Some(s) => Some(s@),
        None => None,
    }
}

/// Loads the settings, given what was persisted and the platform's
/// directories.
///
/// Persisted settings are taken as they are. Without any, the defaults are
/// computed from the platform's directories and marked as still to be saved.
/// Either way the result lists the directories that the settings name, which
/// have to exist once the load is done.
pub fn get_app_settings(
    persisted: Option<AppSettings>,
    document_dir: Option<&str>,
    data_dir: Option<&str>,
    mode: Mode,
) -> (loaded: Result<Loaded, BackendError>)
    ensures
        loaded is Ok ==> spec_loaded(
            spec_optional_settings(persisted),
            spec_optional(document_dir),
            spec_optional(data_dir),
            mode,
        ) == Ok::<(SettingsView, bool), ErrorView>(
            (loaded.unwrap().settings@, loaded.unwrap().created),
        ),
        loaded is Ok ==> text_views(loaded.unwrap().directories@) == spec_directories(
            loaded.unwrap().settings@,
        ),
        loaded is Err ==> spec_loaded(
            spec_optional_settings(persisted),
            spec_optional(document_dir),
            spec_optional(data_dir),
            mode,
        ) == Err::<(SettingsView, bool), ErrorView>(loaded.unwrap_err()@),
{
    let (settings, created) = match persisted {
        Some(settings) => (settings, false),
        None => match default_settings(document_dir, data_dir, mode) {
            Ok(settings) => (settings, true),
            Err(error) => {
                return Err(error);
            },
        },
    };
    let directories = directories(&settings);
    Ok(Loaded { settings, created, directories })
}

/// The failure reported when a directory could not be created: it names the
/// directory.
pub fn directory_failure(directory: &str, cause: &str) -> (error: BackendError)
    ensures
        error@ == (ErrorView::DirectoryCreationFailed { directory: directory@, cause: cause@ }),
{
    BackendError::DirectoryCreationFailed {
        directory: String::from_str(directory),
        cause: String::from_str(cause),
    }
}

/// The wording for each stage of handling the settings file.
pub open spec fn spec_stage_text(stage: SettingsStage) -> Seq<char> {
    match stage {
        SettingsStage::Read => "Failed to read settings: "@,
        SettingsStage::Parse => "Failed to parse settings: "@,
        SettingsStage::Serialize => "Failed to serialize settings: "@,
        SettingsStage::Write => "Failed to save settings: "@,
    }
}

/// The failure reported when the settings file could not be handled: it
/// names the stage.
pub fn settings_failure(stage: SettingsStage, cause: &str) -> (error: BackendError)
    ensures
        error@ == (ErrorView::SettingsIoError { cause: spec_stage_text(stage) + cause@ }),
{
    let mut text = match stage {
        SettingsStage::Read => String::from_str("Failed to read settings: "),
        SettingsStage::Parse => String::from_str("Failed to parse settings: "),
        SettingsStage::Serialize => String::from_str("Failed to serialize settings: "),
        SettingsStage::Write => String::from_str("Failed to save settings: "),
    };
    text.append(cause);
    BackendError::SettingsIoError { cause: text }
}

/// Resets all state: the table holds the seeded rows and nothing else, and
/// the settings are the defaults of a first run, still to be saved.
pub fn reset_database(
    table: &mut SettingsTable,
    document_dir: Option<&str>,
    data_dir: Option<&str>,
    mode: Mode,
) -> (fresh: Result<Loaded, BackendError>)
    ensures
        final(table).wf(),
        final(table)@ == spec_examples(),
        fresh is Ok ==> spec_default_settings(
            spec_optional(document_dir),
            spec_optional(data_dir),
            mode,
        ) == Ok::<SettingsView, ErrorView>(fresh.unwrap().settings@) && fresh.unwrap().created,
        fresh is Ok ==> text_views(fresh.unwrap().directories@) == spec_directories(
            fresh.unwrap().settings@,
        ),
        fresh is Err ==> spec_default_settings(
            spec_optional(document_dir),
            spec_optional(data_dir),
            mode,
        ) == Err::<SettingsView, ErrorView>(fresh.unwrap_err()@),
{
    *table = SettingsTable::new();
    init_database(table);
    assert(table@ =~= spec_examples());
    get_app_settings(None, document_dir, data_dir, mode)
}

} // verus!
