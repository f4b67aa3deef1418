use vstd::prelude::*;

verus! {

/// Why an operation of this crate failed.
#[derive(Clone, Debug, PartialEq, Eq)]
pub enum Error {
    /// A command was run without any argument.
    EmptyCommand,
    /// The process ended without an exit code (it was killed by a signal).
    MissingExitCode,
    /// The process exited with a non-zero code and failure was not allowed.
    Failed { code: i32 },
    /// Output of a process was not valid UTF-8.
    InvalidUtf8,
    /// A probe exited with a code that has no meaning for it.
    UnexpectedExitCode { code: i32 },
    /// A line of `env` output had no `=`.
    MissingEnvSeparator,
    /// An expected environment variable was not set.
    MissingEnvVar { name: String },
    /// A PostgreSQL user name outside `[A-Za-z0-9_]+`.
    InvalidPostgresUser,
    /// A PostgreSQL database name outside `[A-Za-z0-9_$]+`.
    InvalidPostgresDatabase,
    /// A remote user name outside `[A-Za-z0-9._-]+`.
    UnsafeUser { user: String },
    /// The destination of an upload is not a directory.
    NotADirectory { path: String },
    /// The remote file system reported no file type for a path.
    MissingFileType,
    /// The output of `id --user` was not a user id.
    InvalidUserId,
    /// A port that is not a number in `0..=65535`.
    InvalidPort,
    /// The remote file system reported an error.
    Remote { message: String },
    /// Reading from or waiting for a process failed.
    Io { message: String },
}

} // verus!
