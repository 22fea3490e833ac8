use vstd::prelude::*;

verus! {

/// Declares `std::io::Error` so that a filesystem failure can be carried in
/// the library's error type.
#[verifier::external_type_specification]
#[verifier::external_body]
pub struct ExIoError(std::io::Error);

/// Every failure that the library reports.
#[derive(Debug)]
pub enum Error {
    /// A filesystem operation on `path` failed.
    FileIo { path: String, source: std::io::Error },
    /// The standard (config|cache|data) directory cannot be resolved.
    UnsupportedOS,
    /// The CMake generator name is not recognized.
    UnsupportedGenerator { generator: String },
    /// The CMake build type name is not recognized.
    UnsupportedBuildType { build_type: String },
    /// The configuration file already exists.
    ConfigureAlreadyExists { path: String },
    /// A version string is not a valid semantic version.
    InvalidVersion { version: String },
    /// An entry is malformed (both or neither of url/path), or not found.
    InvalidEntry { name: String, message: String },
    /// A tool has no known relative path and none was given.
    UnknownTool { name: String },
    /// An external command exited with a non-zero code.
    CommandError { errno: i32, cmd: String, stdout: String, stderr: String },
    /// An external command could not be spawned.
    CommandNotFound { cmd: String },
    /// An external command was terminated by a signal.
    CommandTerminatedBySignal { cmd: String, stdout: String, stderr: String },
}

pub type Result<T> = core::result::Result<T, Error>;

impl Error {
    pub fn invalid_version(version: &str) -> (r: Self)
        ensures
            r matches Error::InvalidVersion { version: v } && v@ == version@,
    {
        Error::InvalidVersion { version: version.to_owned() }
    }
}

} // verus!
