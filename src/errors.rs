//! The ways a run can fail.
use vstd::prelude::*;

verus! {

/// An error of the operating system, carried through unchanged.
#[verifier::external_type_specification]
#[verifier::external_body]
pub struct ExIoError(std::io::Error);

/// The error of a background task of the async runtime that could not be
/// awaited to completion, carried through unchanged.
#[verifier::external_type_specification]
#[verifier::external_body]
pub struct ExJoinError(tokio::task::JoinError);

/// Every failure is terminal for the run that met it.
#[derive(Debug)]
pub enum ShellError {
    /// The shell name matched none of the supported shells.
    UnsupportedShell(String),
    /// The process did not exit within the configured duration.
    Timeout,
    /// The script file could not be created or written.
    FailedPrepare(std::io::Error),
    /// The background preparation of the script could not be awaited.
    FailedJoin(tokio::task::JoinError),
    /// The operating system refused to create the child process.
    FailedSpawn(std::io::Error),
    /// Reading the output streams of the child process failed.
    FailedOutput(std::io::Error),
    /// The process exited with a non-zero status; the decoded standard error.
    Failure(String),
}

} // verus!
