//! Failures reported by the session registry.

use vstd::prelude::*;
use vstd::string::*;

verus! {

/// The class a failure belongs to.
#[derive(Clone, Copy, Debug, PartialEq, Eq, Structural)]
pub enum ErrorKind {
    /// Neither or both of a process id and a spawn path were given.
    InvalidArgument,
    /// The engine could not spawn the target.
    ProcessSpawnError,
    /// The engine could not attach to the target.
    AttachFailed,
    /// The session id was never issued by this registry.
    NotFound,
    /// The session was destroyed earlier.
    Inactive,
    /// The engine rejected the script source.
    ScriptCompileError,
    /// The engine compiled the script but could not load it.
    ScriptLoadError,
    /// The engine could not resume the target.
    ResumeFailed,
}

/// A failure: its class and the diagnostic text that goes with it.
#[derive(Debug)]
pub struct SessionError {
    pub kind: ErrorKind,
    pub detail: String,
}

/// Text of the failure raised when a target is not named by exactly one of
/// process id and spawn path.
pub open spec fn invalid_target_text() -> Seq<char> {
    "Provide pid or spawn_path"@
}

/// Text of the failure raised for an identifier that was never issued.
pub open spec fn not_found_text(id: Seq<char>) -> Seq<char> {
    "Session not found: "@ + id
}

/// Text of the failure raised for the identifier of a destroyed session.
pub open spec fn inactive_text(id: Seq<char>) -> Seq<char> {
    "Session "@ + id + " is no longer active"@
}

impl SessionError {
    /// Whether this failure has the given class and diagnostic text.
    pub open spec fn carries(&self, kind: ErrorKind, detail: Seq<char>) -> bool {
        self.kind == kind && self.detail@ == detail
    }

    /// The failure for a target that is not named by exactly one of process
    /// id and spawn path.
    pub fn invalid_target() -> (e: SessionError)
        ensures
            e.carries(ErrorKind::InvalidArgument, invalid_target_text()),
    {
        SessionError {
            kind: ErrorKind::InvalidArgument,
            detail: String::from_str("Provide pid or spawn_path"),
        }
    }

    /// The failure for an identifier that was never issued.
    pub fn not_found(id: &str) -> (e: SessionError)
        ensures
            e.carries(ErrorKind::NotFound, not_found_text(id@)),
    {
        SessionError {
            kind: ErrorKind::NotFound,
            detail: String::from_str("Session not found: ").concat(id),
        }
    }

    /// The failure for the identifier of a destroyed session.
    pub fn inactive(id: &str) -> (e: SessionError)
        ensures
            e.carries(ErrorKind::Inactive, inactive_text(id@)),
    {
        SessionError {
            kind: ErrorKind::Inactive,
            detail: String::from_str("Session ").concat(id).concat(" is no longer active"),
        }
    }

    /// A failure reported by the engine, with the engine's own text.
    pub fn from_engine(kind: ErrorKind, detail: String) -> (e: SessionError)
        ensures
            e.carries(kind, detail@),
    {
        SessionError { kind, detail }
    }

    /// The diagnostic text of this failure.
    pub fn message(&self) -> (text: String)
        ensures
            text@ == self.detail@,
    {
        self.detail.clone()
    }
}

} // verus!
