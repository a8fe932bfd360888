//! The failure taxonomy shared by the session, the pipeline and the store.

use vstd::prelude::*;

verus! {

/// Every failure the core can report. Each operation's contract says
/// exactly which of these it may return, and on which inputs.
#[derive(Clone, Copy, PartialEq, Eq, Structural, Debug)]
pub enum MemoError {
    /// `start` was called while a capture was already in progress.
    AlreadyRecording,
    /// `stop` was called while no capture was in progress.
    NotRecording,
    /// A filesystem create or write failed (raised by the unverified shell).
    IOFailure,
    /// An engine capability was not loaded.
    EngineUnavailable,
    /// The audio bytes could not be decoded.
    DecodeFailure,
    /// The summarizer was handed empty text.
    EmptyInput,
    /// A stage was invoked before the stage it depends on had run.
    MissingPrerequisite,
    /// No record with the given identifier exists.
    NotFound,
    /// A record with the given identifier already exists.
    DuplicateId,
    /// An engine call exceeded its time budget (raised by the unverified shell).
    Timeout,
}

impl MemoError {
    /// The human-readable description of each failure.
    pub open spec fn message_spec(self) -> Seq<char> {
        match self {
            MemoError::AlreadyRecording => "already recording"@,
            MemoError::NotRecording => "not recording"@,
            MemoError::IOFailure => "filesystem operation failed"@,
            MemoError::EngineUnavailable => "engine not loaded"@,
            MemoError::DecodeFailure => "audio could not be decoded"@,
            MemoError::EmptyInput => "input text is empty"@,
            MemoError::MissingPrerequisite => "an earlier stage has not run"@,
            MemoError::NotFound => "no such recording"@,
            MemoError::DuplicateId => "recording id already exists"@,
            MemoError::Timeout => "engine call timed out"@,
        }
    }

    /// Renders the failure for reporting at the interface boundary.
    pub fn message(&self) -> (r: String)
        ensures
            r@ == self.message_spec(),
    {
        match self {
            MemoError::AlreadyRecording => String::from_str("already recording"),
            MemoError::NotRecording => String::from_str("not recording"),
            MemoError::IOFailure => String::from_str("filesystem operation failed"),
            MemoError::EngineUnavailable => String::from_str("engine not loaded"),
            MemoError::DecodeFailure => String::from_str("audio could not be decoded"),
            MemoError::EmptyInput => String::from_str("input text is empty"),
            MemoError::MissingPrerequisite => String::from_str("an earlier stage has not run"),
            MemoError::NotFound => String::from_str("no such recording"),
            MemoError::DuplicateId => String::from_str("recording id already exists"),
            MemoError::Timeout => String::from_str("engine call timed out"),
        }
    }
}

} // verus!
