//! The closed set of failures the bridge reports, the text of each, and the
//! classification of a raw backend message.

use crate::text::{contains, contains_text};
use vstd::prelude::*;

verus! {

/// Errors that can occur while talking to the generation backend.
#[derive(Debug, Clone)]
pub enum Error {
    /// The backend is not available on this system.
    ModelNotAvailable,
    /// The backend reported a failure during generation.
    GenerationError(String),
    /// The caller supplied an unusable prompt.
    InvalidInput(String),
    /// An invariant of the bridge itself was violated.
    InternalError(String),
    /// A lock was left poisoned by a panic while it was held.
    PoisonError,
}

/// The mathematical value of an [`Error`]: its kind, with message texts as
/// character sequences.
pub enum Failure {
    ModelNotAvailable,
    GenerationError(Seq<char>),
    InvalidInput(Seq<char>),
    InternalError(Seq<char>),
    PoisonError,
}

impl View for Error {
    type V = Failure;

    open spec fn view(&self) -> Failure {
        match self {
            Error::ModelNotAvailable => Failure::ModelNotAvailable,
            Error::GenerationError(m) => Failure::GenerationError(m@),
            Error::InvalidInput(m) => Failure::InvalidInput(m@),
            Error::InternalError(m) => Failure::InternalError(m@),
            Error::PoisonError => Failure::PoisonError,
        }
    }
}

/// The text that describes a failure to a person.
pub open spec fn failure_text(f: Failure) -> Seq<char> {
    match f {
        Failure::ModelNotAvailable =>
            "Foundation Model not available. Enable Apple Intelligence in System Settings."@,
        Failure::GenerationError(m) => "Generation error: "@ + m,
        Failure::InvalidInput(m) => "Invalid input: "@ + m,
        Failure::InternalError(m) => "Internal error: "@ + m,
        Failure::PoisonError =>
            "Synchronization primitive poisoned due to panic while holding lock"@,
    }
}

/// The text whose presence in a backend message marks the message as a report
/// that the model is unavailable.
pub open spec fn availability_marker() -> Seq<char> {
    "not available"@
}

/// The failure that a raw backend message stands for. A message that mentions
/// the availability marker anywhere means the model is unavailable; every
/// other message is kept as a generation error.
pub open spec fn classify_text(message: Seq<char>) -> Failure {
    if contains_text(message, availability_marker()) {
        Failure::ModelNotAvailable
    } else {
        Failure::GenerationError(message)
    }
}

impl Error {
    /// Classifies a raw backend message by looking for the availability
    /// marker in it. This is a heuristic on the message text.
    pub fn classify(message: &str) -> (error: Error)
        ensures
            error@ == classify_text(message@),
    {
        if contains(message, "not available") {
            Error::ModelNotAvailable
        } else {
            Error::GenerationError(String::from_str(message))
        }
    }

    /// Renders the error as text.
    pub fn message(&self) -> (text: String)
        ensures
            text@ == failure_text(self@),
    {
        match self {
            Error::ModelNotAvailable => String::from_str(
                "Foundation Model not available. Enable Apple Intelligence in System Settings.",
            ),
            Error::GenerationError(m) => String::from_str("Generation error: ").concat(m.as_str()),
            Error::InvalidInput(m) => String::from_str("Invalid input: ").concat(m.as_str()),
            Error::InternalError(m) => String::from_str("Internal error: ").concat(m.as_str()),
            Error::PoisonError => String::from_str(
                "Synchronization primitive poisoned due to panic while holding lock",
            ),
        }
    }
}

} // verus!

