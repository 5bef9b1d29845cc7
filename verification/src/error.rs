//! Error vocabulary: parse-time errors echo the offending input; OS-level
//! errors carry the underlying error code and are never swallowed.
use vstd::prelude::*;

verus! {

/// A parse-time error. The payload echoes the input that was rejected.
#[derive(Debug, PartialEq, Eq)]
pub enum Error {
    /// The text is not one of the enumerated uppercase signal names.
    InvalidSignalName(String),
    /// The text is not a non-negative 32-bit count of seconds.
    InvalidTimeoutValue(String),
}

impl Error {
    /// Human-readable description, with the offending input echoed.
    pub fn message(&self) -> (m: String)
        ensures
            self matches Error::InvalidSignalName(s) ==> m@ == "invalid signal name: "@ + s@,
            self matches Error::InvalidTimeoutValue(s) ==> m@ == "invalid timeout value: "@ + s@,
    {
        match self {
            Error::InvalidSignalName(s) => {
                let mut m = "invalid signal name: ".to_owned();
                m.append(s.as_str());
                m
            },
            Error::InvalidTimeoutValue(s) => {
                let mut m = "invalid timeout value: ".to_owned();
                m.append(s.as_str());
                m
            },
        }
    }
}

/// An error from a process-control operation, with the OS error code
/// attached where one exists.
#[derive(Debug, Clone, Copy, PartialEq, Eq, Structural)]
pub enum ProcessControlError {
    /// The process identity does not currently exist.
    NoSuchProcess,
    /// The caller lacks the rights to act on that process.
    PermissionDenied,
    /// Any other OS-level failure, with its error code.
    OsError(i32),
    /// Replacing the process image failed; the original process continues.
    ExecFailed(i32),
}

} // verus!
