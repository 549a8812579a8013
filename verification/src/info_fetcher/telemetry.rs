//! Where an info fetcher logs to.
use vstd::prelude::*;

verus! {

/// Why the directory for log files could not be created.
#[derive(Clone, Debug, PartialEq, Eq)]
pub struct CreateFileLogDirectoryError {
    pub source: String,
    pub path: String,
}

/// The directory for log files that has to be created, if file logging is enabled at all.
///
/// Old log files are pruned *before* the first one is written, and that pruning pass complains on
/// stderr when the directory does not exist yet. The message is harmless, but it is unstructured
/// output that reads like a startup failure and reaches the log collector as an unparsable line.
///
/// The other containers avoid it because their bash entrypoint runs `mkdir -p` first. The
/// info-fetcher sidecars exec their binary directly, with no shell to do that for them, so they
/// create the directory themselves.
pub fn file_log_directory(configured: &Option<String>) -> (directory: Option<&str>)
    ensures
        match directory {
            Some(directory) => *configured matches Some(path) && directory@ == path@,
            None => *configured is None,
        },
{
    match configured {
        Some(path) => Some(path.as_str()),
        None => None,
    }
}

/// The outcome of creating the file log directory. `created` is what came of it, with the reason
/// where it failed; it does not matter where file logging is disabled.
pub fn create_file_log_directory(configured: &Option<String>, created: Result<(), String>) -> (result:
    Result<(), CreateFileLogDirectoryError>)
    ensures
        match (*configured, created) {
            (Some(path), Err(reason)) => result matches Err(error) && error.source@ == reason@
                && error.path@ == path@,
            _ => result is Ok,
        },
{
    match (file_log_directory(configured), created) {
        (Some(path), Err(source)) => Err(
            CreateFileLogDirectoryError { source, path: path.to_owned() },
        ),
        _ => Ok(()),
    }
}

} // verus!
