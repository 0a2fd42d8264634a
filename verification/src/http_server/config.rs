//! HTTP server configuration.
use std::path::PathBuf;
use vstd::prelude::*;

verus! {

/// HTTP server configuration: the `[http_server]` table.
#[derive(Debug, PartialEq, Eq)]
pub struct HttpServerConfig {
    /// Bind address for the HTTP server.
    pub bind_address: String,
    /// Port for the HTTP server.
    pub port: u16,
    /// Path to the configuration file, for dynamic updates. Not part of the file.
    pub config_file_path: Option<PathBuf>,
}

/// The model of an `HttpServerConfig`.
#[verifier::ext_equal]
pub struct HttpServerConfigView {
    pub bind_address: Seq<char>,
    pub port: u16,
    pub config_file_path: Option<PathBuf>,
}

impl DeepView for HttpServerConfig {
    type V = HttpServerConfigView;

    open spec fn deep_view(&self) -> HttpServerConfigView {
        HttpServerConfigView {
            bind_address: self.bind_address@,
            port: self.port,
            config_file_path: self.config_file_path,
        }
    }
}

impl Clone for HttpServerConfig {
    fn clone(&self) -> (copy: Self)
        ensures
            copy.deep_view() == self.deep_view(),
    {
        HttpServerConfig {
            bind_address: self.bind_address.clone(),
            port: self.port,
            config_file_path: self.config_file_path.clone(),
        }
    }
}

impl Default for HttpServerConfig {
    fn default() -> (config: Self)
        ensures
            config.bind_address@ == "127.0.0.1"@,
            config.port == 8080,
            config.config_file_path is None,
    {
        HttpServerConfig {
            bind_address: "127.0.0.1".to_owned(),
            port: 8080,
            config_file_path: None,
        }
    }
}

/// The model of the HTTP server's configuration tells every field of it.
pub proof fn http_server_model_is_complete(a: HttpServerConfig, b: HttpServerConfig)
    requires
        a.deep_view() == b.deep_view(),
    ensures
        a.bind_address@ == b.bind_address@,
        a.port == b.port,
        a.config_file_path == b.config_file_path,
{
}

/// By default the HTTP server listens on this machine only, on port 8080, and was told
/// no path.
pub proof fn default_server_is_local(config: HttpServerConfig)
    requires
        call_ensures(HttpServerConfig::default, (), config),
    ensures
        config.bind_address@ == "127.0.0.1"@,
        config.port == 8080,
        config.config_file_path is None,
{
}

} // verus!
