//! The decisions of loading and saving the configuration document. Finding
//! the directory, reading, writing and the document's codec are the host's
//! work; what they gave is handed in here, and what is to be done next is
//! handed back.

use vstd::prelude::*;

use crate::config::error::{ConfigError, ConfigErrorView};
use crate::config::types::{AppConfig, AppConfigView};
use crate::config::validate::{validate_config, window_refusal};

verus! {

/// Name of the configuration file inside the configuration directory.
pub const CONFIG_FILE_NAME: &'static str = "config.yaml";

/// Where the configuration file lies: the directory as the host resolved
/// it, and the file's name in it. Where the host could not resolve the
/// directory, its reason becomes the error.
pub fn get_config_path<D>(directory: Result<D, String>) -> (path: Result<
    (D, &'static str),
    ConfigError,
>)
    ensures
        match directory {
            Ok(dir) => path == Ok::<(D, &'static str), ConfigError>((dir, CONFIG_FILE_NAME)),
            Err(cause) => path matches Err(e) && e@ == ConfigErrorView::ConfigDirNotFound(cause@),
        },
{
    match directory {
        Ok(dir) => Ok((dir, CONFIG_FILE_NAME)),
        Err(cause) => Err(ConfigError::ConfigDirNotFound(cause)),
    }
}

/// The configuration that is compiled in: what a new installation starts
/// with, and what takes the place of a document that cannot be used.
pub fn load_default_config() -> (config: AppConfig)
    ensures
        config@ == AppConfigView::default_value(),
{
    AppConfig::default()
}

/// What the host found where the configuration is kept.
#[derive(Debug, PartialEq, Eq)]
pub enum StoredConfig {
    /// The configuration directory could not be resolved.
    NoDirectory,
    /// There is no configuration file.
    Missing,
    /// The file is there but could not be read.
    Unreadable,
    /// The file was read but could not be parsed as a document.
    Malformed,
    /// The file was parsed as this document. Whether the document may be
    /// used is for loading to say.
    Parsed(AppConfig),
}

pub enum StoredConfigView {
    NoDirectory,
    Missing,
    Unreadable,
    Malformed,
    Parsed(AppConfigView),
}

impl View for StoredConfig {
    type V = StoredConfigView;

    open spec fn view(&self) -> StoredConfigView {
        match self {
            StoredConfig::NoDirectory => StoredConfigView::NoDirectory,
            StoredConfig::Missing => StoredConfigView::Missing,
            StoredConfig::Unreadable => StoredConfigView::Unreadable,
            StoredConfig::Malformed => StoredConfigView::Malformed,
            StoredConfig::Parsed(config) => StoredConfigView::Parsed(config@),
        }
    }
}

/// The result of loading: the configuration to use, and whether the host
/// is to write it back in place of what it found.
#[derive(Debug, PartialEq, Eq)]
pub struct LoadOutcome {
    pub config: AppConfig,
    /// The stored document is absent or unusable and is to be replaced by
    /// `config`. A failure of that write is not an error of the load.
    pub repair: bool,
}

pub struct LoadOutcomeView {
    pub config: AppConfigView,
    pub repair: bool,
}

impl View for LoadOutcome {
    type V = LoadOutcomeView;

    open spec fn view(&self) -> LoadOutcomeView {
        LoadOutcomeView { config: self.config@, repair: self.repair }
    }
}

impl StoredConfigView {
    /// Whether what was found is a document that may be used: it was
    /// parsed, and every field of it holds a valid value.
    pub open spec fn usable(self) -> bool {
        self matches StoredConfigView::Parsed(config) && config.valid()
    }

    /// What loading makes of what was found. A parsed document whose fields
    /// are all valid is used as it is. In every other case the compiled-in
    /// default is used; it is written back unless there is no directory to
    /// write to.
    pub open spec fn loaded(self) -> LoadOutcomeView {
        match self {
            StoredConfigView::Parsed(config) => if config.valid() {
                LoadOutcomeView { config, repair: false }
            } else {
                LoadOutcomeView { config: AppConfigView::default_value(), repair: true }
            },
            StoredConfigView::NoDirectory => LoadOutcomeView {
                config: AppConfigView::default_value(),
                repair: false,
            },
            _ => LoadOutcomeView { config: AppConfigView::default_value(), repair: true },
        }
    }
}

/// Loading never fails. A parsed document whose fields are all valid is
/// used as it is. In every other case the compiled-in default is used; it
/// is written back unless there is no directory to write to.
pub fn load_config(stored: StoredConfig) -> (outcome: LoadOutcome)
    ensures
        outcome@ == stored@.loaded(),
        outcome@.config.valid(),
        stored matches StoredConfig::Parsed(config) ==> (config@.valid() ==> outcome.config
            == config),
{
    match stored {
        StoredConfig::Parsed(config) => {
            if validate_config(&config).is_ok() {
                LoadOutcome { config, repair: false }
            } else {
                LoadOutcome { config: load_default_config(), repair: true }
            }
        },
        StoredConfig::NoDirectory => LoadOutcome { config: load_default_config(), repair: false },
        _ => LoadOutcome { config: load_default_config(), repair: true },
    }
}

/// Whatever is wrong with what was found, loading gives the compiled-in
/// default, whole: a document that is missing, unreadable, not parsed or
/// not valid contributes no field.
pub proof fn law_unusable_document_loads_as_default(stored: StoredConfigView)
    requires
        !stored.usable(),
    ensures
        stored.loaded().config == AppConfigView::default_value(),
        stored.loaded().repair <==> !(stored is NoDirectory),
{
}

/// A valid document that was saved and is found again is loaded as it was
/// saved, field for field, and nothing is written back.
pub proof fn law_saved_document_loads_unchanged(saved: AppConfigView)
    requires
        saved.valid(),
    ensures
        StoredConfigView::Parsed(saved).loaded() == (LoadOutcomeView {
            config: saved,
            repair: false,
        }),
{
}

/// What loading gives may always be stored: it is valid, whatever was found.
pub proof fn law_loaded_document_is_valid(stored: StoredConfigView)
    ensures
        stored.loaded().config.valid(),
{
}

/// The step of writing the document that went wrong, with the reason the
/// host got.
#[derive(Debug, PartialEq, Eq)]
pub enum SaveFailure {
    /// The configuration directory could not be created.
    CreateDirectory(String),
    /// The document could not be serialised.
    Serialize(String),
    /// The file could not be written.
    Write(String),
}

pub enum SaveFailureView {
    CreateDirectory(Seq<char>),
    Serialize(Seq<char>),
    Write(Seq<char>),
}

impl View for SaveFailure {
    type V = SaveFailureView;

    open spec fn view(&self) -> SaveFailureView {
        match self {
            SaveFailure::CreateDirectory(cause) => SaveFailureView::CreateDirectory(cause@),
            SaveFailure::Serialize(cause) => SaveFailureView::Serialize(cause@),
            SaveFailure::Write(cause) => SaveFailureView::Write(cause@),
        }
    }
}

impl SaveFailureView {
    /// The error a failed step of saving is reported as.
    pub open spec fn error(self) -> ConfigErrorView {
        match self {
            SaveFailureView::CreateDirectory(cause) => ConfigErrorView::WriteError(cause),
            SaveFailureView::Serialize(cause) => ConfigErrorView::ParseError(cause),
            SaveFailureView::Write(cause) => ConfigErrorView::WriteError(cause),
        }
    }
}

/// How far the host has come with saving.
#[derive(Debug, PartialEq, Eq)]
pub enum SaveProgress<D> {
    /// Nothing is written yet. The host has tried to resolve the
    /// configuration directory, and this is what it got.
    Resolved(Result<D, String>),
    /// The host has tried to write, and this is how it went.
    Written(Result<(), SaveFailure>),
}

/// What comes next in saving.
#[derive(Debug, PartialEq, Eq)]
pub enum SaveStep<D> {
    /// The host is to create the directory if need be, serialise the
    /// document and write it to the file of this name in the directory, and
    /// then to come back with how that went.
    Write { directory: D, file_name: &'static str },
    /// Saving is over.
    Finished(Result<(), ConfigError>),
}

/// Saves the whole document, step by step with the host. First the
/// directory must have been resolved: where it was not, that is the error,
/// whatever the document. Then a document that is not valid is refused, so
/// that it is never written. Then the host writes, and the outcome of the
/// write is the outcome of the save, a failed step being reported as the
/// error that belongs to it.
pub fn save_config<D>(config: &AppConfig, progress: SaveProgress<D>) -> (step: SaveStep<D>)
    ensures
        match progress {
            SaveProgress::Resolved(Err(cause)) => step matches SaveStep::Finished(Err(e)) && e@
                == ConfigErrorView::ConfigDirNotFound(cause@),
            SaveProgress::Resolved(Ok(directory)) => match window_refusal(config@.window) {
                Some(refusal) => step matches SaveStep::Finished(Err(e)) && e@ == refusal,
                None => step == (SaveStep::Write { directory, file_name: CONFIG_FILE_NAME }),
            },
            SaveProgress::Written(Ok(_)) => step matches SaveStep::Finished(Ok(_)),
            SaveProgress::Written(Err(failure)) => step matches SaveStep::Finished(Err(e)) && e@
                == failure@.error(),
        },
        step is Write ==> config@.valid(),
{
    match progress {
        SaveProgress::Resolved(directory) => match get_config_path(directory) {
            Ok((directory, file_name)) => match validate_config(config) {
                Ok(_) => SaveStep::Write { directory, file_name },
                Err(e) => SaveStep::Finished(Err(e)),
            },
            Err(e) => SaveStep::Finished(Err(e)),
        },
        SaveProgress::Written(Ok(_)) => SaveStep::Finished(Ok(())),
        SaveProgress::Written(Err(SaveFailure::CreateDirectory(cause))) => SaveStep::Finished(
            Err(ConfigError::WriteError(cause)),
        ),
        SaveProgress::Written(Err(SaveFailure::Serialize(cause))) => SaveStep::Finished(
            Err(ConfigError::ParseError(cause)),
        ),
        SaveProgress::Written(Err(SaveFailure::Write(cause))) => SaveStep::Finished(
            Err(ConfigError::WriteError(cause)),
        ),
    }
}

} // verus!
