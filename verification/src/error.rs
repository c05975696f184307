//! The session's error model: every failure is reported as a structured
//! "kind: message" line before the process exits, and each kind names which
//! part of the session gave up.

use vstd::prelude::*;

verus! {

/// The kind of a session failure.
///
/// - `UnreachableCode`: an internal invariant was violated; immediately
///   fatal, no recovery is attempted.
/// - `IOError`: a read or write on the controlling terminal or the pty
///   failed; fatal to the owning relay and triggers teardown.
/// - `PreRunError`: the input relay failed to complete cleanly.
/// - `PostRunError`: the output relay failed to complete cleanly.
/// - `OtherError`: a setup-time failure (signal subscription, pty, fork).
#[derive(Clone, Copy, PartialEq, Eq, Structural, Debug)]
pub enum ErrorType {
    UnreachableCode,
    IOError,
    PreRunError,
    PostRunError,
    OtherError,
}

impl ErrorType {
    /// The name under which this kind is reported.
    pub open spec fn spec_name(self) -> Seq<char> {
        match self {
            ErrorType::UnreachableCode => "UnreachableCode"@,
            ErrorType::IOError => "IOError"@,
            ErrorType::PreRunError => "PreRunError"@,
            ErrorType::PostRunError => "PostRunError"@,
            ErrorType::OtherError => "OtherError"@,
        }
    }

    /// Returns the kind's name, exactly as `spec_name` states it.
    pub fn name(&self) -> (r: &'static str)
        ensures
            r@ == self.spec_name(),
    {
        match self {
            ErrorType::UnreachableCode => "UnreachableCode",
            ErrorType::IOError => "IOError",
            ErrorType::PreRunError => "PreRunError",
            ErrorType::PostRunError => "PostRunError",
            ErrorType::OtherError => "OtherError",
        }
    }
}

/// A session failure: a kind together with a human-readable message.
pub struct Error {
    pub message: String,
    pub error_type: ErrorType,
}

impl Error {
    /// The structured report line for this error: "kind: message".
    pub open spec fn spec_line(self) -> Seq<char> {
        self.error_type.spec_name() + ": "@ + self.message@
    }

    /// Wraps a message and a kind into an error value.
    pub fn new(message: String, error_type: ErrorType) -> (e: Self)
        ensures
            e.message == message,
            e.error_type == error_type,
    {
        Error { message, error_type }
    }

    /// Renders the error as the structured "kind: message" line that is
    /// reported to the user before exit.
    pub fn print(&self) -> (line: String)
        ensures
            line@ == self.spec_line(),
    {
        let mut line = String::new();
        line.append(self.error_type.name());
        line.append(": ");
        line.append(self.message.as_str());
        line
    }
}

} // verus!
