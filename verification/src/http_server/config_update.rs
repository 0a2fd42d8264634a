//! Replacing the configuration file, one file operation at a time.
//!
//! An update reads the file, parses it, has the configuration changed, writes the
//! new text to a temporary file beside it and renames that over the original. The
//! first operation that fails ends the update. [`ConfigUpdate`] keeps track of where
//! the update is: it is told what came of one action and says what to do next.
use std::path::PathBuf;
use vstd::prelude::*;

use crate::application::KmsApplication;
use crate::config::KmsConfig;
use crate::error::Error;
use crate::http_server::config::HttpServerConfig;
use crate::paths::path_file_name;
use crate::paths::temp_path;

verus! {

/// The action whose outcome an update waits for.
#[derive(Debug, Clone, Copy, PartialEq, Eq, Structural)]
pub enum UpdateStage {
    Read,
    Parse,
    Update,
    Serialize,
    Write,
    Rename,
    Done,
}

/// Something that is to be done for an update.
#[derive(Debug, PartialEq, Eq)]
pub enum UpdateAction {
    /// Read the whole file as text.
    ReadFile { path: PathBuf },
    /// Parse the text as a configuration.
    ParseConfig { text: String },
    /// Change the configuration.
    ApplyUpdate { config: KmsConfig },
    /// Write the configuration as text.
    SerializeConfig { config: KmsConfig },
    /// Make the file hold the text.
    WriteFile { path: PathBuf, text: String },
    /// Rename a file over another one.
    RenameFile { from: PathBuf, to: PathBuf },
    /// Nothing more: the update is over, with this result.
    Finish { result: Result<(), Error> },
}

impl UpdateAction {
    /// Whether the update is over and has succeeded.
    pub open spec fn is_success(self) -> bool {
        self matches UpdateAction::Finish { result: Ok(_) }
    }
}

/// What came of an action. A failed one tells its cause.
#[derive(Debug, PartialEq, Eq)]
pub enum UpdateEvent {
    FileRead(Result<String, String>),
    ConfigParsed(Result<KmsConfig, String>),
    UpdateApplied(Result<KmsConfig, Error>),
    ConfigSerialized(Result<String, String>),
    FileWritten(Result<(), String>),
    FileRenamed(Result<(), String>),
}

impl UpdateEvent {
    /// Whether this is an outcome of the action that is waited for at `stage`.
    pub open spec fn answers(self, stage: UpdateStage) -> bool {
        match self {
            UpdateEvent::FileRead(_) => stage == UpdateStage::Read,
            UpdateEvent::ConfigParsed(_) => stage == UpdateStage::Parse,
            UpdateEvent::UpdateApplied(_) => stage == UpdateStage::Update,
            UpdateEvent::ConfigSerialized(_) => stage == UpdateStage::Serialize,
            UpdateEvent::FileWritten(_) => stage == UpdateStage::Write,
            UpdateEvent::FileRenamed(_) => stage == UpdateStage::Rename,
        }
    }

    /// Tests whether this is an outcome of the action that is waited for at `stage`.
    pub fn is_answer_at(&self, stage: UpdateStage) -> (answers: bool)
        ensures
            answers == self.answers(stage),
    {
        match self {
            UpdateEvent::FileRead(_) => stage == UpdateStage::Read,
            UpdateEvent::ConfigParsed(_) => stage == UpdateStage::Parse,
            UpdateEvent::UpdateApplied(_) => stage == UpdateStage::Update,
            UpdateEvent::ConfigSerialized(_) => stage == UpdateStage::Serialize,
            UpdateEvent::FileWritten(_) => stage == UpdateStage::Write,
            UpdateEvent::FileRenamed(_) => stage == UpdateStage::Rename,
        }
    }
}

/// An update of the configuration file.
#[derive(Debug, PartialEq, Eq)]
pub struct ConfigUpdate {
    /// The configuration file.
    pub config_path: PathBuf,
    /// The temporary file.
    pub temp_path: PathBuf,
    /// The action whose outcome is waited for.
    pub stage: UpdateStage,
}

impl ConfigUpdate {
    /// This update at another stage.
    pub open spec fn at(self, stage: UpdateStage) -> ConfigUpdate {
        ConfigUpdate { config_path: self.config_path, temp_path: self.temp_path, stage }
    }

    /// The end of this update with `result`.
    pub open spec fn finished(self, result: Result<(), Error>) -> (ConfigUpdate, UpdateAction) {
        (self.at(UpdateStage::Done), UpdateAction::Finish { result })
    }

    /// Where the update goes after `event`, and what is to be done then.
    pub open spec fn step(self, event: UpdateEvent) -> (ConfigUpdate, UpdateAction) {
        match event {
            UpdateEvent::FileRead(Ok(text)) => (
                self.at(UpdateStage::Parse),
                UpdateAction::ParseConfig { text },
            ),
            UpdateEvent::FileRead(Err(cause)) => self.finished(Err(Error::ReadConfig(cause))),
            UpdateEvent::ConfigParsed(Ok(config)) => (
                self.at(UpdateStage::Update),
                UpdateAction::ApplyUpdate { config },
            ),
            UpdateEvent::ConfigParsed(Err(cause)) => self.finished(
                Err(Error::ParseConfig(cause)),
            ),
            UpdateEvent::UpdateApplied(Ok(config)) => (
                self.at(UpdateStage::Serialize),
                UpdateAction::SerializeConfig { config },
            ),
            UpdateEvent::UpdateApplied(Err(error)) => self.finished(Err(error)),
            UpdateEvent::ConfigSerialized(Ok(text)) => (
                self.at(UpdateStage::Write),
                UpdateAction::WriteFile { path: self.temp_path, text },
            ),
            UpdateEvent::ConfigSerialized(Err(cause)) => self.finished(
                Err(Error::SerializeConfig(cause)),
            ),
            UpdateEvent::FileWritten(Ok(_)) => (
                self.at(UpdateStage::Rename),
                UpdateAction::RenameFile { from: self.temp_path, to: self.config_path },
            ),
            UpdateEvent::FileWritten(Err(cause)) => self.finished(
                Err(Error::WriteTempConfig(cause)),
            ),
            UpdateEvent::FileRenamed(Ok(_)) => self.finished(Ok(())),
            UpdateEvent::FileRenamed(Err(cause)) => self.finished(Err(Error::RenameConfig(cause))),
        }
    }

    fn finish(&mut self, result: Result<(), Error>) -> (action: UpdateAction)
        ensures
            (*final(self), action) == old(self).finished(result),
    {
        self.stage = UpdateStage::Done;
        UpdateAction::Finish { result }
    }

    /// Takes the outcome of the pending action and returns the next action.
    pub fn advance(&mut self, event: UpdateEvent) -> (action: UpdateAction)
        requires
            event.answers(old(self).stage),
        ensures
            (*final(self), action) == old(self).step(event),
            final(self).config_path == old(self).config_path,
            final(self).temp_path == old(self).temp_path,
            action is Finish <==> final(self).stage == UpdateStage::Done,
    {
        match event {
            UpdateEvent::FileRead(Ok(text)) => {
                self.stage = UpdateStage::Parse;
                UpdateAction::ParseConfig { text }
            },
            UpdateEvent::FileRead(Err(cause)) => self.finish(Err(Error::ReadConfig(cause))),
            UpdateEvent::ConfigParsed(Ok(config)) => {
                self.stage = UpdateStage::Update;
                UpdateAction::ApplyUpdate { config }
            },
            UpdateEvent::ConfigParsed(Err(cause)) => self.finish(Err(Error::ParseConfig(cause))),
            UpdateEvent::UpdateApplied(Ok(config)) => {
                self.stage = UpdateStage::Serialize;
                UpdateAction::SerializeConfig { config }
            },
            UpdateEvent::UpdateApplied(Err(error)) => self.finish(Err(error)),
            UpdateEvent::ConfigSerialized(Ok(text)) => {
                self.stage = UpdateStage::Write;
                UpdateAction::WriteFile { path: self.temp_path.clone(), text }
            },
            UpdateEvent::ConfigSerialized(Err(cause)) => self.finish(
                Err(Error::SerializeConfig(cause)),
            ),
            UpdateEvent::FileWritten(Ok(_)) => {
                self.stage = UpdateStage::Rename;
                UpdateAction::RenameFile {
                    from: self.temp_path.clone(),
                    to: self.config_path.clone(),
                }
            },
            UpdateEvent::FileWritten(Err(cause)) => self.finish(Err(Error::WriteTempConfig(cause))),
            UpdateEvent::FileRenamed(Ok(_)) => self.finish(Ok(())),
            UpdateEvent::FileRenamed(Err(cause)) => self.finish(Err(Error::RenameConfig(cause))),
        }
    }
}

/// The configuration file that an update is for: the one that the HTTP server's
/// configuration names, else the one that the application was told.
pub open spec fn config_path_for(
    http_server: Option<HttpServerConfig>,
    app: KmsApplication,
) -> Option<PathBuf> {
    match http_server {
        Some(HttpServerConfig { config_file_path: Some(path), .. }) => Some(path),
        _ => app.config_file_path,
    }
}

/// How an update starts.
#[derive(Debug, PartialEq, Eq)]
pub enum UpdateStart {
    /// With an action to perform.
    Started(ConfigUpdate, UpdateAction),
    /// It fails at once.
    Failed(Error),
    /// It cannot be carried out: the path has no file name.
    NotAFile(PathBuf),
}

/// How an update of the file at `config_path` starts.
pub open spec fn update_start(config_path: Option<PathBuf>) -> UpdateStart {
    match config_path {
        None => UpdateStart::Failed(Error::NoConfigPath),
        Some(path) => match crate::paths::temp_path_of(path) {
            None => UpdateStart::NotAFile(path),
            Some(temp) => UpdateStart::Started(
                ConfigUpdate { config_path: path, temp_path: temp, stage: UpdateStage::Read },
                UpdateAction::ReadFile { path },
            ),
        },
    }
}

/// The path of the configuration file, as [`config_path_for`] gives it.
pub fn find_config_path(http_server: &Option<HttpServerConfig>, app: &KmsApplication) -> (path:
    Option<PathBuf>)
    ensures
        path == config_path_for(*http_server, *app),
        http_server matches Some(server) && server.config_file_path is Some ==> path
            == (http_server->0).config_file_path,
        !(http_server matches Some(server) && server.config_file_path is Some) ==> path
            == app.config_file_path,
{
    if let Some(http_config) = http_server {
        if let Some(path) = &http_config.config_file_path {
            return Some(path.clone());
        }
    }
    app.get_config_file_path()
}

/// Starts an update of the configuration file. It starts for every path with a file
/// name.
pub fn atomic_config_update(http_server: &Option<HttpServerConfig>, app: &KmsApplication) -> (start:
    UpdateStart)
    ensures
        start == update_start(config_path_for(*http_server, *app)),
        start is Started <==> (config_path_for(*http_server, *app) matches Some(path)
            && path_file_name(path) is Some),
        start is Failed <==> config_path_for(*http_server, *app) is None,
{
    match find_config_path(http_server, app) {
        None => UpdateStart::Failed(Error::NoConfigPath),
        Some(config_path) => match temp_path(&config_path) {
            None => UpdateStart::NotAFile(config_path),
            Some(temp_path) => {
                let path = config_path.clone();
                UpdateStart::Started(
                    ConfigUpdate { config_path, temp_path, stage: UpdateStage::Read },
                    UpdateAction::ReadFile { path },
                )
            },
        },
    }
}

/// Where the configuration file is: at the path of the HTTP server's configuration if
/// it has one, and else where the application says.
pub proof fn own_path_goes_first(http_server: Option<HttpServerConfig>, app: KmsApplication)
    ensures
        http_server is None ==> config_path_for(http_server, app) == app.config_file_path,
        http_server matches Some(server) ==> config_path_for(http_server, app) == (
        if server.config_file_path is Some {
            server.config_file_path
        } else {
            app.config_file_path
        }),
{
}

/// How an update starts: with reading the file at a path that has a file name, with an
/// error where no path is known, and not at all for any other path.
pub proof fn update_starts_with_reading(config_path: Option<PathBuf>)
    ensures
        config_path is None ==> {
            &&& update_start(config_path) matches UpdateStart::Failed(error)
            &&& error.shown() == "config error: No config file path available"@
        },
        config_path matches Some(path) && path_file_name(path) is None ==> update_start(config_path)
            == UpdateStart::NotAFile(config_path->0),
        config_path matches Some(path) && path_file_name(path) is Some ==> {
            let path = config_path->0;
            &&& update_start(config_path) matches UpdateStart::Started(update, action)
            &&& update.config_path == path
            &&& update.temp_path == crate::paths::path_join(
                crate::paths::path_parent(path)->0,
                crate::paths::path_text(path_file_name(path)->0) + ".tmp"@,
            )
            &&& update.stage == UpdateStage::Read
            &&& action == (UpdateAction::ReadFile { path })
        },
{
    crate::error::errors_are_told(arbitrary());
}

/// An update takes every outcome of the action that it waits for, and no outcome of
/// another one.
pub proof fn update_takes_every_outcome(stage: UpdateStage, event: UpdateEvent)
    ensures
        event.answers(stage) <==> match stage {
            UpdateStage::Read => event is FileRead,
            UpdateStage::Parse => event is ConfigParsed,
            UpdateStage::Update => event is UpdateApplied,
            UpdateStage::Serialize => event is ConfigSerialized,
            UpdateStage::Write => event is FileWritten,
            UpdateStage::Rename => event is FileRenamed,
            UpdateStage::Done => false,
        },
{
}

/// Starting an update and telling it an event goes as [`update_start`] and
/// [`ConfigUpdate::step`] say, and the tests of events are what they say.
pub proof fn update_takes_its_steps(
    http_server: Option<HttpServerConfig>,
    app: KmsApplication,
    start: UpdateStart,
    path: Option<PathBuf>,
    update: &mut ConfigUpdate,
    event: UpdateEvent,
    action: UpdateAction,
    stage: UpdateStage,
    answers: bool,
)
    requires
        call_ensures(find_config_path, (&http_server, &app), path),
        call_ensures(atomic_config_update, (&http_server, &app), start),
        call_ensures(ConfigUpdate::advance, (update, event), action),
        call_ensures(UpdateEvent::is_answer_at, (&event, stage), answers),
    ensures
        path == config_path_for(http_server, app),
        start == update_start(path),
        (*final(update), action) == old(update).step(event),
        answers <==> event.answers(stage),
{
}

} // verus!
