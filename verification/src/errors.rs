//! Error taxonomy of the fetch tool.

use vstd::prelude::*;

verus! {

/// Why a fetch failed.
///
/// * `NotEnoughStorage`: the query exceeds the quota, or the headroom was
///   insufficient and eviction was declined.
/// * `LogDeletionFailed`: eviction was attempted but deleting the managed
///   directory's contents failed; the fetch aborts rather than continue
///   against a directory in an unknown state.
/// * `DownloadFailed`: a worker hit a transport or filesystem error;
///   surfaced once all workers settle.
#[derive(Clone, Copy, Debug, PartialEq, Eq, Structural)]
pub enum FetchError {
    NotEnoughStorage,
    LogDeletionFailed,
    DownloadFailed,
}

impl FetchError {
    /// The human-readable description of this error.
    pub fn message(&self) -> (r: &'static str)
        ensures
            *self is NotEnoughStorage ==> r@ == "Not enough storage space available"@,
            *self is LogDeletionFailed ==> r@ == "Failed to delete logs"@,
            *self is DownloadFailed ==> r@ == "Failed to download logs"@,
    {
        match self {
            FetchError::NotEnoughStorage => "Not enough storage space available",
            FetchError::LogDeletionFailed => "Failed to delete logs",
            FetchError::DownloadFailed => "Failed to download logs",
        }
    }
}

/// Why a preview failed: the listing could not be completed at all.
#[derive(Clone, Copy, Debug, PartialEq, Eq, Structural)]
pub enum PreviewError {
    PreviewFailed,
}

impl PreviewError {
    /// The human-readable description of this error.
    pub fn message(&self) -> (r: &'static str)
        ensures
            r@ == "Failed to preview logs"@,
    {
        "Failed to preview logs"
    }
}

/// Why constructing the object-store client failed.
#[derive(Clone, Copy, Debug, PartialEq, Eq, Structural)]
pub enum ClientError {
    GetClientError,
}

/// Why reading the profile list failed.
#[derive(Clone, Copy, Debug, PartialEq, Eq, Structural)]
pub enum ProfilesError {
    GetProfilesError,
}

/// Why loading profiles from the shared credentials file failed: the file
/// could not be parsed, or no home directory exists to locate it under.
#[derive(Clone, Copy, Debug, PartialEq, Eq, Structural)]
pub enum GetProfilesError {
    FileError,
    HomeDirNotFound,
}

/// Why resolving the credentials file path failed.
#[derive(Clone, Copy, Debug, PartialEq, Eq, Structural)]
pub enum GetAwsConfigFilePathError {
    HomeDirNotFound,
}

/// An application-level setup failure, carrying the path of the directory
/// that could not be created.
#[derive(Clone, Debug)]
pub enum ApplicationError {
    DirectoryCreationError(String),
}

} // verus!
