//! What an operation asks of its host, and what the host answers.
//!
//! The operations of this crate touch no file themselves. Each one names the
//! next thing to do as a `Request`; the host does it against the real
//! power-supply class and hands the outcome back as a `Reply`.

use crate::error::IoFailure;
use vstd::prelude::*;

verus! {

/// A place in the power-supply class, seen from one battery.
#[derive(Debug, Clone, Copy, PartialEq, Eq, Hash, Structural)]
pub enum Node {
    /// The class directory itself.
    ClassRoot,
    /// The directory of the battery.
    Battery,
    /// The battery's start threshold.
    StartThreshold,
    /// The battery's stop threshold.
    StopThreshold,
    /// The start threshold under the name that older drivers use.
    LegacyStartThreshold,
    /// The stop threshold under the name that older drivers use.
    LegacyStopThreshold,
    /// The online flag of the mains adapter.
    AcOnline,
}

/// One thing for the host to do.
#[derive(Debug, Clone, Copy, PartialEq, Eq, Structural)]
pub enum Request {
    /// Tell whether the node exists.
    Exists(Node),
    /// Read the whole file.
    Read(Node),
    /// Open the existing file, truncate it, and write the percentage as
    /// `write_threshold` spells it.
    Write(Node, u8),
    /// Start listening for the operator's stop signal.
    Listen,
    /// Wait for the stop signal, for this many seconds at most.
    Wait(u64),
}

/// What came of a request.
#[derive(Debug, Clone, PartialEq, Eq)]
pub enum Reply {
    /// Answers `Exists`.
    Exists(bool),
    /// Answers `Read`: the bytes of the file.
    Contents(Vec<u8>),
    /// Answers `Write`: the value is stored.
    Written,
    /// Answers `Read`: the file could not be opened or read. Answers
    /// `Write`: the file could not be opened.
    Failed(IoFailure),
    /// Answers `Write`: the file was opened, but the write to it failed.
    Unwritten(IoFailure),
    /// Answers `Listen`: the handler is in place.
    Listening,
    /// Answers `Wait`: the stop signal came.
    Stopped,
    /// Answers `Wait`: the time passed without a stop signal.
    Elapsed,
}

/// A reply as contracts speak of it, with the bytes of a file as a sequence.
pub enum Answer {
    Exists(bool),
    Contents(Seq<u8>),
    Written,
    Failed(IoFailure),
    Unwritten(IoFailure),
    Listening,
    Stopped,
    Elapsed,
}

impl View for Reply {
    type V = Answer;

    open spec fn view(&self) -> Answer {
        match *self {
            Reply::Exists(found) => Answer::Exists(found),
            Reply::Contents(bytes) => Answer::Contents(bytes@),
            Reply::Written => Answer::Written,
            Reply::Failed(failure) => Answer::Failed(failure),
            Reply::Unwritten(failure) => Answer::Unwritten(failure),
            Reply::Listening => Answer::Listening,
            Reply::Stopped => Answer::Stopped,
            Reply::Elapsed => Answer::Elapsed,
        }
    }
}

/// An operation that a host drives: it names its next request, and it moves
/// on when the host answers.
pub trait Operation: Sized {
    /// What the operation asks of the host next; nothing once it is over.
    spec fn pending(self) -> Option<Request>;

    /// The operation after the host's answer.
    spec fn next(self, answer: Answer) -> Self;
}

} // verus!
