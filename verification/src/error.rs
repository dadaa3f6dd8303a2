//! The error type shared by every operation of the backend.
use vstd::prelude::*;

verus! {

/// What went wrong, for callers that choose between retry, manual
/// intervention and abort.
#[derive(Clone, Copy, Debug, PartialEq, Eq, Structural)]
pub enum ErrorKind {
    /// A required configuration file is absent.
    ConfigurationMissing,
    /// The cluster control plane cannot be reached.
    ConnectionFailure,
    /// A version string, UUID, number or tag is malformed.
    ParseFailure,
    /// An expected partition, volume group, mount point or account is absent.
    NotFound,
    /// Recorded state contradicts itself, such as tags without an id.
    StateInconsistency,
    /// A spawned process ended with a non-zero status.
    ExternalToolFailure,
    /// A filesystem or device operation failed.
    IoFailure,
}

/// An error of the backend: its kind and a message for the operator.
#[derive(Clone, Debug, PartialEq, Eq)]
pub struct OsdError {
    pub kind: ErrorKind,
    pub message: String,
}

/// The mathematical content of an [`OsdError`].
pub struct OsdErrorView {
    pub kind: ErrorKind,
    pub message: Seq<char>,
}

/// The error content with the given kind and message.
pub open spec fn error_view(kind: ErrorKind, message: Seq<char>) -> OsdErrorView {
    OsdErrorView { kind, message }
}

impl View for OsdError {
    type V = OsdErrorView;

    open spec fn view(&self) -> OsdErrorView {
        OsdErrorView { kind: self.kind, message: self.message@ }
    }
}

impl OsdError {
    /// An error of the given kind with the given message.
    pub fn new(kind: ErrorKind, message: String) -> (e: OsdError)
        ensures
            e@ == (OsdErrorView { kind, message: message@ }),
    {
        OsdError { kind, message }
    }

    /// The failure of a spawned process; the message is what the process
    /// wrote to its standard error.
    pub fn tool_failure(stderr: String) -> (e: OsdError)
        ensures
            e@ == (OsdErrorView { kind: ErrorKind::ExternalToolFailure, message: stderr@ }),
    {
        OsdError { kind: ErrorKind::ExternalToolFailure, message: stderr }
    }

    /// The kind of this error.
    pub fn kind(&self) -> (k: ErrorKind)
        ensures
            k == self@.kind,
    {
        self.kind
    }

    /// The message of this error.
    pub fn message(&self) -> (m: &str)
        ensures
            m@ == self@.message,
    {
        self.message.as_str()
    }

    /// A copy of this error.
    pub fn duplicate(&self) -> (e: OsdError)
        ensures
            e@ == self@,
    {
        OsdError { kind: self.kind, message: self.message.clone() }
    }
}

} // verus!
