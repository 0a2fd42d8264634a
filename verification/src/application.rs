//! What the running application knows about itself.
use std::path::PathBuf;
use vstd::prelude::*;

verus! {

/// How much the application tells while it runs.
#[derive(Debug, Clone, Copy, PartialEq, Eq, Structural)]
pub enum TracingConfig {
    /// Debug messages too.
    Verbose,
    /// What the environment asks for.
    Default,
}

/// The application's own state.
#[derive(Debug, PartialEq, Eq)]
pub struct KmsApplication {
    /// Path to the configuration file, set at run time.
    pub config_file_path: Option<PathBuf>,
}

impl Default for KmsApplication {
    fn default() -> (app: Self)
        ensures
            app.config_file_path is None,
    {
        KmsApplication { config_file_path: None }
    }
}

impl KmsApplication {
    /// The application once it was told the path of the configuration file.
    pub open spec fn told(self, path: PathBuf) -> KmsApplication {
        KmsApplication { config_file_path: Some(path) }
    }

    /// Set the configuration file path.
    pub fn set_config_file_path(&mut self, path: PathBuf)
        ensures
            *final(self) == old(self).told(path),
    {
        self.config_file_path = Some(path);
    }

    /// Get the configuration file path.
    pub fn get_config_file_path(&self) -> (path: Option<PathBuf>)
        ensures
            path == self.config_file_path,
    {
        self.config_file_path.clone()
    }

    /// The tracing configuration for a command that was or was not told to be
    /// verbose.
    pub fn tracing_config(&self, verbose: bool) -> (config: TracingConfig)
        ensures
            config == (if verbose { TracingConfig::Verbose } else { TracingConfig::Default }),
    {
        if verbose {
            TracingConfig::Verbose
        } else {
            TracingConfig::Default
        }
    }
}

/// The application knows the path that it was told last.
pub proof fn last_path_is_kept(app: KmsApplication, first: PathBuf, second: PathBuf)
    ensures
        app.told(first).config_file_path == Some(first),
        app.told(first).told(second) == app.told(second),
{
}

/// What the application answers about itself: the path that it knows, and to be verbose
/// exactly when it was told to.
pub proof fn application_tells_what_it_knows(
    app: KmsApplication,
    verbose: bool,
    path: Option<PathBuf>,
    config: TracingConfig,
)
    requires
        call_ensures(KmsApplication::get_config_file_path, (&app,), path),
        call_ensures(KmsApplication::tracing_config, (&app, verbose), config),
    ensures
        path == app.config_file_path,
        config is Verbose <==> verbose,
{
}

/// Getting the path gives back the one that was set last, whatever was known before.
pub proof fn set_path_is_got(app: &mut KmsApplication, path: PathBuf, got: Option<PathBuf>)
    requires
        call_ensures(KmsApplication::set_config_file_path, (app, path), ()),
        call_ensures(KmsApplication::get_config_file_path, (final(app),), got),
    ensures
        got == Some(path),
{
}

/// A new application knows no path.
pub proof fn new_application_knows_no_path(app: KmsApplication)
    requires
        call_ensures(KmsApplication::default, (), app),
    ensures
        app.config_file_path is None,
{
}

} // verus!
