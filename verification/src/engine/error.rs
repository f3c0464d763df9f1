//! What can go wrong in a session.

use vstd::prelude::*;
use vstd::string::*;
use crate::uci::UciRemark;

verus! {

/// A failure of the engine or of the talk with it.
#[derive(Debug, Clone, PartialEq, Eq)]
pub enum EngineError {
    /// The transport failed; the text is the cause as the system gave it.
    IoError(String),
    /// The engine closed its output while a remark was expected.
    UnexpectedTermination,
    /// The engine sent a line that is no remark: the line, and why not.
    InvalidMessage(String, String),
    /// The engine sent a remark that has no place at this point.
    UnexpectedRemark(UciRemark),
    /// The engine never gave its name.
    MissingName,
    /// The engine never gave its author.
    MissingAuthor,
    /// The engine described an option that cannot be.
    InvalidOption,
}

/// Why an analysis was refused.
#[derive(Debug, Clone, Copy, PartialEq, Eq, Structural)]
pub enum EngineAnalysisError {
    /// The game can only be played as Chess960, which the engine has not
    /// switched on.
    Requires960,
}

/// Why an option was not set.
#[derive(Debug, Clone, PartialEq, Eq)]
pub enum SetOptionError {
    NoSuchOption,
    TypeMismatch,
    OutOfRange,
    EngineError(EngineError),
}

impl EngineError {
    /// The error in words.
    pub open spec fn spec_message(self) -> Seq<char> {
        match self {
            EngineError::IoError(cause) => "io error: "@ + cause@,
            EngineError::UnexpectedTermination => "engine unexpectedly exited"@,
            EngineError::InvalidMessage(_, _) => "invalid message"@,
            EngineError::UnexpectedRemark(_) => "unexpected remark"@,
            EngineError::MissingName => "missing name"@,
            EngineError::MissingAuthor => "missing author"@,
            EngineError::InvalidOption => "invalid option"@,
        }
    }

    /// The error in words.
    pub fn message(&self) -> (r: String)
        ensures
            r@ == self.spec_message(),
    {
        match self {
            EngineError::IoError(cause) => String::from_str("io error: ").concat(cause.as_str()),
            EngineError::UnexpectedTermination => String::from_str("engine unexpectedly exited"),
            EngineError::InvalidMessage(_, _) => String::from_str("invalid message"),
            EngineError::UnexpectedRemark(_) => String::from_str("unexpected remark"),
            EngineError::MissingName => String::from_str("missing name"),
            EngineError::MissingAuthor => String::from_str("missing author"),
            EngineError::InvalidOption => String::from_str("invalid option"),
        }
    }
}

impl EngineAnalysisError {
    /// The error in words.
    pub fn message(&self) -> (r: String)
        ensures
            r@ == "requires chess960 support"@,
    {
        String::from_str("requires chess960 support")
    }
}

impl SetOptionError {
    /// The error in words.
    pub open spec fn spec_message(self) -> Seq<char> {
        match self {
            SetOptionError::NoSuchOption => "no such option"@,
            SetOptionError::TypeMismatch => "type mismatch"@,
            SetOptionError::OutOfRange => "out of range"@,
            SetOptionError::EngineError(e) => "engine error: "@ + e.spec_message(),
        }
    }

    /// The error in words.
    pub fn message(&self) -> (r: String)
        ensures
            r@ == self.spec_message(),
    {
        match self {
            SetOptionError::NoSuchOption => String::from_str("no such option"),
            SetOptionError::TypeMismatch => String::from_str("type mismatch"),
            SetOptionError::OutOfRange => String::from_str("out of range"),
            SetOptionError::EngineError(e) => {
                let inner = e.message();
                String::from_str("engine error: ").concat(inner.as_str())
            },
        }
    }
}

impl From<EngineError> for SetOptionError {
    fn from(e: EngineError) -> (r: SetOptionError) {
        SetOptionError::EngineError(e)
    }
}

impl vstd::std_specs::convert::FromSpecImpl<EngineError> for SetOptionError {
    open spec fn obeys_from_spec() -> bool {
        true
    }

    open spec fn from_spec(e: EngineError) -> SetOptionError {
        SetOptionError::EngineError(e)
    }
}

} // verus!
