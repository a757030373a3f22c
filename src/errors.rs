//! The error type shared by every feature.

use vstd::prelude::*;
use crate::text::join2;

verus! {

#[verifier::external_type_specification]
#[verifier::external_body]
pub struct ExIoError(std::io::Error);

/// Errors of the application; each carries the detail shown to the operator.
#[derive(Debug)]
pub enum ModeError {
    /// A file or process operation failed.
    Io(std::io::Error),
    /// The user's shell could not be determined.
    ShellDetection(String),
    /// An alias name was rejected.
    InvalidAliasName(String),
    /// The alias is already defined.
    DuplicateAlias(String),
    /// The shell's rc file does not exist.
    RcFileNotFound(String),
    /// The shell's rc file cannot be written.
    RcFileNotWritable(String),
    /// The rc file could not be backed up.
    BackupFailed(String),
    /// Some other file operation failed.
    FileOperation(String),
    /// Input was rejected.
    InvalidInput(String),
    /// The terminal could not be driven.
    Terminal(String),
    /// Any other failure, described by its message alone.
    Generic(String),
}

/// The operator-facing text of an error that carries a message.
pub open spec fn error_text(e: ModeError) -> Seq<char>
    recommends
        !(e is Io),
{
    match e {
        ModeError::Io(_) => Seq::empty(),
        ModeError::ShellDetection(m) => "Could not detect shell: "@ + m@,
        ModeError::InvalidAliasName(m) => "Invalid alias name: "@ + m@,
        ModeError::DuplicateAlias(m) => "Alias '"@ + m@ + "' already exists in RC file"@,
        ModeError::RcFileNotFound(m) => "RC file not found: "@ + m@,
        ModeError::RcFileNotWritable(m) => "RC file is not writable: "@ + m@,
        ModeError::BackupFailed(m) => "Failed to create backup: "@ + m@,
        ModeError::FileOperation(m) => "File operation failed: "@ + m@,
        ModeError::InvalidInput(m) => "Invalid input: "@ + m@,
        ModeError::Terminal(m) => "Terminal error: "@ + m@,
        ModeError::Generic(m) => m@,
    }
}

/// Relies on the `Display` impl of `std::io::Error`, whose text comes from the
/// operating system.
#[verifier::external_body]
fn io_error_text(e: &std::io::Error) -> String {
    e.to_string()
}

impl ModeError {
    /// The text shown to the operator for this error.
    pub fn message(&self) -> (r: String)
        ensures
            describes(*self, r@),
    {
        match self {
            ModeError::Io(e) => join2("IO error: ", io_error_text(e).as_str()),
            ModeError::ShellDetection(m) => join2("Could not detect shell: ", m.as_str()),
            ModeError::InvalidAliasName(m) => join2("Invalid alias name: ", m.as_str()),
            ModeError::DuplicateAlias(m) => {
                let a = join2("Alias '", m.as_str());
                join2(a.as_str(), "' already exists in RC file")
            },
            ModeError::RcFileNotFound(m) => join2("RC file not found: ", m.as_str()),
            ModeError::RcFileNotWritable(m) => join2("RC file is not writable: ", m.as_str()),
            ModeError::BackupFailed(m) => join2("Failed to create backup: ", m.as_str()),
            ModeError::FileOperation(m) => join2("File operation failed: ", m.as_str()),
            ModeError::InvalidInput(m) => join2("Invalid input: ", m.as_str()),
            ModeError::Terminal(m) => join2("Terminal error: ", m.as_str()),
            ModeError::Generic(m) => m.clone(),
        }
    }
}

/// `text` is what the operator is shown for `e`: exactly its message, or for
/// an I/O error, the prefix that such a message starts with.
pub open spec fn describes(e: ModeError, text: Seq<char>) -> bool {
    &&& !(e is Io) ==> text == error_text(e)
    &&& e is Io ==> has_io_prefix(text)
}

/// The text starts as an I/O error's message does.
pub open spec fn has_io_prefix(s: Seq<char>) -> bool {
    exists|rest: Seq<char>| s == "IO error: "@ + rest
}

} // verus!
