use vstd::prelude::*;

verus! {

/// Everything that can go wrong inside the dashboard core.
///
/// Transport and parsing failures reach the library only as plain
/// messages: the shell turns whatever its HTTP or file layer produced
/// into the matching variant before handing it in.
#[derive(Debug, Clone, PartialEq, Eq)]
pub enum AppError {
    /// The system's default configuration directory could not be determined.
    DefaultConfigDirNotFound,
    /// The configuration file at `path` could not be read.
    ConfigReadError { path: String },
    /// The configuration file at `path` was not valid TOML.
    ConfigParseError { path: String },
    /// A daemon request failed (network failure or non-2xx response).
    ApiError { message: String },
    /// The liveness probe answered without the local-identity header.
    SyncthingIDError,
    /// A folder with the given ID already exists in the store.
    DuplicateFolderID,
    /// A worker queue was closed while a message was being handed to it.
    SendError,
    /// No folder with the given ID is configured.
    UnknownFolder,
    /// No device with the given ID is configured (or pending, for
    /// operations on the pending set).
    UnknownDevice,
}

impl AppError {
    /// A short human-readable description, for the error popup.
    pub fn message(&self) -> (r: String)
        ensures
            r@.len() > 0,
    {
        let r = match self {
            AppError::DefaultConfigDirNotFound => "could not determine the default configuration directory",
            AppError::ConfigReadError { .. } => "failed to read the configuration file",
            AppError::ConfigParseError { .. } => "failed to parse the configuration file",
            AppError::ApiError { .. } => "daemon request failed",
            AppError::SyncthingIDError => "syncthing ID header not set",
            AppError::DuplicateFolderID => "folder ID already exists",
            AppError::SendError => "a background worker is gone",
            AppError::UnknownFolder => "folder not found",
            AppError::UnknownDevice => "device not found",
        };
        proof {
            reveal_strlit("could not determine the default configuration directory");
            reveal_strlit("failed to read the configuration file");
            reveal_strlit("failed to parse the configuration file");
            reveal_strlit("daemon request failed");
            reveal_strlit("syncthing ID header not set");
            reveal_strlit("folder ID already exists");
            reveal_strlit("a background worker is gone");
            reveal_strlit("folder not found");
            reveal_strlit("device not found");
        }
        String::from_str(r)
    }
}

} // verus!
