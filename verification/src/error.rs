//! What can go wrong, and how it is told.
use vstd::prelude::*;

verus! {

/// The kind of an error.
#[derive(Debug, Clone, Copy, PartialEq, Eq, Structural)]
pub enum ErrorKind {
    /// The configuration could not be found, read, understood or replaced.
    ConfigError,
}

impl ErrorKind {
    /// How the kind is shown.
    pub open spec fn spec_text(self) -> Seq<char> {
        match self {
            ErrorKind::ConfigError => "config error"@,
        }
    }

    /// How the kind is shown.
    pub fn text(&self) -> (text: &'static str)
        ensures
            text@ == self.spec_text(),
    {
        match self {
            ErrorKind::ConfigError => "config error",
        }
    }
}

/// A failed operation. The text inside a variant is the cause, as the operation
/// told it.
#[derive(Debug, PartialEq, Eq)]
pub enum Error {
    /// Neither the HTTP server's configuration nor the application knows the path of
    /// the configuration file.
    NoConfigPath,
    /// The configuration file could not be read.
    ReadConfig(String),
    /// The configuration file's text is not a configuration.
    ParseConfig(String),
    /// The new configuration could not be written as text.
    SerializeConfig(String),
    /// The temporary file could not be written.
    WriteTempConfig(String),
    /// The temporary file could not take the place of the configuration file.
    RenameConfig(String),
    /// An operation outside of the configuration update failed; the text is shown as
    /// it is.
    Other(String),
}

impl Error {
    /// The kind of the error, where it has one.
    pub open spec fn spec_kind(self) -> Option<ErrorKind> {
        match self {
            Error::Other(_) => None,
            _ => Some(ErrorKind::ConfigError),
        }
    }

    /// What is said of the failure.
    pub open spec fn message(self) -> Seq<char> {
        match self {
            Error::NoConfigPath => "No config file path available"@,
            Error::ReadConfig(cause) => "failed to read config file: "@ + cause@,
            Error::ParseConfig(cause) => "failed to parse config: "@ + cause@,
            Error::SerializeConfig(cause) => "failed to serialize config: "@ + cause@,
            Error::WriteTempConfig(cause) => "failed to write temp config: "@ + cause@,
            Error::RenameConfig(cause) => "failed to rename config file: "@ + cause@,
            Error::Other(cause) => cause@,
        }
    }

    /// How the error is shown: its kind, a colon and its message; the message alone
    /// where there is no kind.
    pub open spec fn shown(self) -> Seq<char> {
        match self.spec_kind() {
            Some(kind) => kind.spec_text() + ": "@ + self.message(),
            None => self.message(),
        }
    }

    /// The kind of the error, where it has one.
    pub fn kind(&self) -> (kind: Option<ErrorKind>)
        ensures
            kind == self.spec_kind(),
    {
        match self {
            Error::Other(_) => None,
            _ => Some(ErrorKind::ConfigError),
        }
    }

    /// The text that stands for the error in logs and replies.
    pub fn describe(&self) -> (text: String)
        ensures
            text@ == self.shown(),
    {
        let (prefix, cause): (&str, &str) = match self {
            Error::NoConfigPath => ("No config file path available", ""),
            Error::ReadConfig(cause) => ("failed to read config file: ", cause.as_str()),
            Error::ParseConfig(cause) => ("failed to parse config: ", cause.as_str()),
            Error::SerializeConfig(cause) => ("failed to serialize config: ", cause.as_str()),
            Error::WriteTempConfig(cause) => ("failed to write temp config: ", cause.as_str()),
            Error::RenameConfig(cause) => ("failed to rename config file: ", cause.as_str()),
            Error::Other(cause) => ("", cause.as_str()),
        };
        proof {
            reveal_strlit("");
        }
        assert(prefix@ + cause@ =~= self.message());
        let mut text: String = String::new();
        if let Some(kind) = self.kind() {
            text.append(kind.text());
            text.append(": ");
        }
        text.append(prefix);
        text.append(cause);
        assert(text@ =~= self.shown());
        text
    }
}

/// Every error tells its cause: a failed step of an update is shown as a config error
/// with the name of the step, and any other failure as it was told.
pub proof fn errors_are_told(cause: String)
    ensures
        Error::NoConfigPath.shown() == "config error: No config file path available"@,
        Error::ReadConfig(cause).shown() == "config error: failed to read config file: "@ + cause@,
        Error::ParseConfig(cause).shown() == "config error: failed to parse config: "@ + cause@,
        Error::SerializeConfig(cause).shown() == "config error: failed to serialize config: "@
            + cause@,
        Error::WriteTempConfig(cause).shown() == "config error: failed to write temp config: "@
            + cause@,
        Error::RenameConfig(cause).shown() == "config error: failed to rename config file: "@
            + cause@,
        Error::Other(cause).shown() == cause@,
{
    reveal_strlit("config error");
    reveal_strlit(": ");
    reveal_strlit("No config file path available");
    reveal_strlit("failed to read config file: ");
    reveal_strlit("failed to parse config: ");
    reveal_strlit("failed to serialize config: ");
    reveal_strlit("failed to write temp config: ");
    reveal_strlit("failed to rename config file: ");
    reveal_strlit("config error: No config file path available");
    reveal_strlit("config error: failed to read config file: ");
    reveal_strlit("config error: failed to parse config: ");
    reveal_strlit("config error: failed to serialize config: ");
    reveal_strlit("config error: failed to write temp config: ");
    reveal_strlit("config error: failed to rename config file: ");
    assert(Error::NoConfigPath.shown() =~= "config error: No config file path available"@);
    assert(Error::ReadConfig(cause).shown() =~= "config error: failed to read config file: "@
        + cause@);
    assert(Error::ParseConfig(cause).shown() =~= "config error: failed to parse config: "@
        + cause@);
    assert(Error::SerializeConfig(cause).shown() =~= "config error: failed to serialize config: "@
        + cause@);
    assert(Error::WriteTempConfig(cause).shown() =~= "config error: failed to write temp config: "@
        + cause@);
    assert(Error::RenameConfig(cause).shown() =~= "config error: failed to rename config file: "@
        + cause@);
}

/// An error's text is what is shown of it.
pub proof fn description_is_what_is_shown(error: Error, text: String)
    requires
        call_ensures(Error::describe, (&error,), text),
    ensures
        text@ == error.shown(),
{
}

/// Every failure of an update is a config error, shown as such, and a failure outside
/// of it has no kind.
pub proof fn update_failures_are_config_errors(
    error: Error,
    kind: Option<ErrorKind>,
    shown: ErrorKind,
    text: &'static str,
)
    requires
        call_ensures(Error::kind, (&error,), kind),
        call_ensures(ErrorKind::text, (&shown,), text),
    ensures
        error is Other <==> kind is None,
        kind is Some ==> kind == Some(ErrorKind::ConfigError),
        text@ == "config error"@,
{
}

} // verus!
