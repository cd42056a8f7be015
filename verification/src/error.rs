//! Errors: what the operating system reported, as plain values, and the
//! typed errors that the operations return.

use vstd::prelude::*;
use vstd::string::StringExecFns;

verus! {

/// How the operating system classified a failure.
#[derive(Clone, Copy, Debug, PartialEq, Eq, Structural)]
pub enum FaultKind {
    /// No entry exists at the path.
    NotFound,
    /// Anything else: permissions, a full disk, a path that is a directory.
    Other,
}

/// A failure of one file-system call, as the operating system reported it.
#[derive(Clone, Debug, PartialEq, Eq)]
pub struct IoFault {
    pub kind: FaultKind,
    /// The operating system's own description of the cause.
    pub message: String,
}

/// The kinds of error an operation can end in.
#[derive(Clone, Copy, Debug, PartialEq, Eq, Structural)]
pub enum ErrorKind {
    /// The requested file, or the target of a removal, does not exist.
    NotFound,
    /// A file-system call failed for another reason.
    IoFailure,
    /// The home directory could not be determined.
    EnvironmentUnresolved,
    /// The file's bytes are not valid text.
    EncodingFailure,
}

/// An error of an operation: its kind, a message for the user, and whether
/// the tool can go on after it.
#[derive(Clone, Debug, PartialEq, Eq)]
pub struct ConfigError {
    pub kind: ErrorKind,
    pub message: String,
    /// True where the failure leaves the tool unable to proceed: the caller
    /// is expected to stop with `message`.
    pub fatal: bool,
}

/// The mathematical value of a `ConfigError`.
pub struct ConfigErrorView {
    pub kind: ErrorKind,
    pub message: Seq<char>,
    pub fatal: bool,
}

impl View for ConfigError {
    type V = ConfigErrorView;

    open spec fn view(&self) -> ConfigErrorView {
        ConfigErrorView { kind: self.kind, message: self.message@, fatal: self.fatal }
    }
}

/// The mathematical value of an `IoFault`.
pub struct IoFaultView {
    pub kind: FaultKind,
    pub message: Seq<char>,
}

impl View for IoFault {
    type V = IoFaultView;

    open spec fn view(&self) -> IoFaultView {
        IoFaultView { kind: self.kind, message: self.message@ }
    }
}

/// The error for a home directory that cannot be determined. Nothing can be
/// done without it, so it is fatal.
pub open spec fn spec_unresolved_home() -> ConfigErrorView {
    ConfigErrorView {
        kind: ErrorKind::EnvironmentUnresolved,
        message: "Could not resolve your $HOME directory"@,
        fatal: true,
    }
}

/// The error that hands a failed file-system call on to the caller, who
/// decides what to do: the fault's own message, and `NotFound` kept apart
/// from every other cause.
pub open spec fn spec_propagated(fault: IoFaultView) -> ConfigErrorView {
    ConfigErrorView {
        kind: match fault.kind {
            FaultKind::NotFound => ErrorKind::NotFound,
            FaultKind::Other => ErrorKind::IoFailure,
        },
        message: fault.message,
        fatal: false,
    }
}

/// The error for a path that should have held an entry and does not.
pub open spec fn spec_missing_path(path: Seq<char>) -> ConfigErrorView {
    ConfigErrorView {
        kind: ErrorKind::NotFound,
        message: "Path does not exist: "@ + path,
        fatal: false,
    }
}

/// The error for an opened file whose content could not be read: `kind`
/// tells a failed read from bytes that are not text.
pub open spec fn spec_unreadable(kind: ErrorKind, path: Seq<char>) -> ConfigErrorView {
    ConfigErrorView { kind, message: "Unable to read file at: "@ + path, fatal: true }
}

/// The error for a file that could not be created for writing.
pub open spec fn spec_create_failed(path: Seq<char>, cause: Seq<char>) -> ConfigErrorView {
    ConfigErrorView {
        kind: ErrorKind::IoFailure,
        message: "Couldn't create "@ + path + ": "@ + cause,
        fatal: true,
    }
}

/// The error for a file that was created but could not be written in full.
pub open spec fn spec_write_failed(path: Seq<char>, cause: Seq<char>) -> ConfigErrorView {
    ConfigErrorView {
        kind: ErrorKind::IoFailure,
        message: "Couldn't write to "@ + path + ": "@ + cause,
        fatal: true,
    }
}

/// The mathematical value of an operation's result that carries a text.
pub open spec fn spec_text_result(result: Result<String, ConfigError>) -> Result<
    Seq<char>,
    ConfigErrorView,
> {
    match result {
        Ok(text) => Ok(text@),
        Err(e) => Err(e@),
    }
}

/// The mathematical value of an operation's result that carries nothing.
pub open spec fn spec_unit_result(result: Result<(), ConfigError>) -> Result<(), ConfigErrorView> {
    match result {
        Ok(_) => Ok(()),
        Err(e) => Err(e@),
    }
}

impl ConfigError {
    /// The error for a home directory that cannot be determined.
    pub fn unresolved_home() -> (e: ConfigError)
        ensures
            e@ == spec_unresolved_home(),
    {
        ConfigError {
            kind: ErrorKind::EnvironmentUnresolved,
            message: String::from_str("Could not resolve your $HOME directory"),
            fatal: true,
        }
    }

    /// Hands a failed file-system call on to the caller.
    pub fn propagated(fault: IoFault) -> (e: ConfigError)
        ensures
            e@ == spec_propagated(fault@),
    {
        let kind = match fault.kind {
            FaultKind::NotFound => ErrorKind::NotFound,
            FaultKind::Other => ErrorKind::IoFailure,
        };
        ConfigError { kind, message: fault.message, fatal: false }
    }

    /// The error for a path that should have held an entry and does not.
    pub fn missing_path(path: &str) -> (e: ConfigError)
        ensures
            e@ == spec_missing_path(path@),
    {
        ConfigError {
            kind: ErrorKind::NotFound,
            message: String::from_str("Path does not exist: ").concat(path),
            fatal: false,
        }
    }

    /// The error for an opened file whose content could not be read.
    pub fn unreadable(kind: ErrorKind, path: &str) -> (e: ConfigError)
        ensures
            e@ == spec_unreadable(kind, path@),
    {
        ConfigError {
            kind,
            message: String::from_str("Unable to read file at: ").concat(path),
            fatal: true,
        }
    }

    /// The error for a file that could not be created for writing.
    pub fn create_failed(path: &str, cause: &str) -> (e: ConfigError)
        ensures
            e@ == spec_create_failed(path@, cause@),
    {
        ConfigError {
            kind: ErrorKind::IoFailure,
            message: String::from_str("Couldn't create ").concat(path).concat(": ").concat(cause),
            fatal: true,
        }
    }

    /// The error for a file that was created but could not be written in full.
    pub fn write_failed(path: &str, cause: &str) -> (e: ConfigError)
        ensures
            e@ == spec_write_failed(path@, cause@),
    {
        ConfigError {
            kind: ErrorKind::IoFailure,
            message: String::from_str("Couldn't write to ").concat(path).concat(": ").concat(cause),
            fatal: true,
        }
    }
}

} // verus!
