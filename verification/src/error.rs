//! The library's error type.

use vstd::prelude::*;

verus! {

/// Why an operation of the library refused or failed.
#[derive(Debug)]
pub enum BallError {
    /// The directory is not inside a git repository.
    NotARepo,
    /// No task file exists for the id.
    TaskNotFound(String),
    /// A task (or one of its fields) is malformed.
    InvalidTask(String),
    /// A merge or a conflicted file could not be resolved.
    Conflict(String),
    /// A git invocation failed.
    Git(String),
    /// Anything else, with its message.
    Other(String),
}

/// An error as plain values.
pub enum BallErrorV {
    NotARepo,
    TaskNotFound(Seq<char>),
    InvalidTask(Seq<char>),
    Conflict(Seq<char>),
    Git(Seq<char>),
    Other(Seq<char>),
}

impl View for BallError {
    type V = BallErrorV;

    open spec fn view(&self) -> BallErrorV {
        match self {
            BallError::NotARepo => BallErrorV::NotARepo,
            BallError::TaskNotFound(s) => BallErrorV::TaskNotFound(s@),
            BallError::InvalidTask(s) => BallErrorV::InvalidTask(s@),
            BallError::Conflict(s) => BallErrorV::Conflict(s@),
            BallError::Git(s) => BallErrorV::Git(s@),
            BallError::Other(s) => BallErrorV::Other(s@),
        }
    }
}

} // verus!
