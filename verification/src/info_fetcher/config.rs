//! Reading the configuration of an info fetcher.
use vstd::prelude::*;

verus! {

/// Why the configuration could not be read.
#[derive(Clone, Debug, PartialEq, Eq)]
pub enum ConfigError {
    /// The file could not be read.
    ReadFile { source: String, path: String },
    /// The contents of the file could not be parsed.
    ParseConfigFile { source: String, path: String },
}

/// What can go wrong with the contents of a file.
pub enum FileFailure {
    /// The file could not be read, for this reason.
    Unreadable(String),
    /// The contents could not be parsed, for this reason.
    Unparsable(String),
}

/// The configuration at this path, given what came of reading and parsing the file.
pub fn read_config_file<C>(path: &str, contents: Result<C, FileFailure>) -> (result: Result<
    C,
    ConfigError,
>)
    ensures
        match contents {
            Ok(config) => result == Ok::<_, ConfigError>(config),
            Err(FileFailure::Unreadable(reason)) => result matches Err(
                ConfigError::ReadFile { source, path: reported },
            ) && source@ == reason@ && reported@ == path@,
            Err(FileFailure::Unparsable(reason)) => result matches Err(
                ConfigError::ParseConfigFile { source, path: reported },
            ) && source@ == reason@ && reported@ == path@,
        },
{
    match contents {
        Ok(config) => Ok(config),
        Err(FileFailure::Unreadable(source)) => Err(
            ConfigError::ReadFile { source, path: path.to_owned() },
        ),
        Err(FileFailure::Unparsable(source)) => Err(
            ConfigError::ParseConfigFile { source, path: path.to_owned() },
        ),
    }
}

} // verus!
