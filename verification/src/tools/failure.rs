//! Why a tool did not do what it was asked.

use vstd::prelude::*;
use vstd::string::*;
use crate::engine::error::SessionError;

verus! {

/// A failed call of a tool.
#[derive(Debug)]
pub enum ToolFailure {
    /// A required argument was not given; the text says which.
    MissingArgument(&'static str),
    /// The session manager refused the call, or the engine failed.
    Session(SessionError),
    /// A program that the tool relies on could not be run, or failed; the
    /// text says what happened.
    Program(String),
}

impl ToolFailure {
    /// The diagnostic text of the failure.
    pub open spec fn text(&self) -> Seq<char> {
        match self {
            ToolFailure::MissingArgument(text) => text@,
            ToolFailure::Session(e) => e.detail@,
            ToolFailure::Program(text) => text@,
        }
    }

    /// The diagnostic text of the failure.
    pub fn message(&self) -> (text: String)
        ensures
            text@ == self.text(),
    {
        match self {
            ToolFailure::MissingArgument(text) => String::from_str(text),
            ToolFailure::Session(e) => e.message(),
            ToolFailure::Program(text) => text.clone(),
        }
    }
}

/// The process id that a numeric argument stands for: its low 32 bits.
pub open spec fn pid_argument(value: u64) -> u32 {
    (value % 0x1_0000_0000) as u32
}

/// Reads a process id out of a numeric argument.
pub fn pid_from_argument(value: u64) -> (pid: u32)
    ensures
        pid == pid_argument(value),
{
    (value % 0x1_0000_0000) as u32
}

} // verus!
